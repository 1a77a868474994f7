//! The generic wire-value tree: the structurally typed representation an
//! interchange document decodes to, prior to mapping into the typed
//! parameter model. An ordered key map keeps its key order and a list its
//! element order, so round trips preserve both.

use vstd::prelude::*;
use vstd::string::*;

use crate::text::int_text;
use crate::text::push_char;
use crate::text::push_int_text;
use crate::text::push_quoted;
use crate::text::quoted;

verus! {

/// One node of the generic wire-value tree.
#[derive(Debug)]
pub enum WireValue {
    /// An explicit null value, distinct from an absent field.
    Null,
    /// A boolean scalar.
    Bool(bool),
    /// An integral numeric literal, representable in 64-bit signed range.
    Int(i64),
    /// A floating-point numeric literal, held as the canonical decimal
    /// text of the 64-bit float it widens to. The text form keeps the
    /// fractional part (`42.0`, not `42`), so an integral float stays
    /// distinguishable from an integer across a round trip.
    Float(String),
    /// A textual scalar.
    Text(String),
    /// An ordered key map; key order is significant and preserved.
    Dict(Vec<(String, WireValue)>),
    /// An ordered list; element order is significant and preserved.
    List(Vec<WireValue>),
}

/// The mathematical shape of a wire value: the same tree over sequences,
/// with text as character sequences. Contracts speak of this model.
pub enum WireModel {
    Null,
    Bool(bool),
    Int(i64),
    Float(Seq<char>),
    Text(Seq<char>),
    Dict(Seq<(Seq<char>, WireModel)>),
    List(Seq<WireModel>),
}

impl WireValue {
    /// The mathematical shape of this wire value.
    pub open spec fn model(self) -> WireModel
        decreases self,
    {
        match self {
            WireValue::Null => WireModel::Null,
            WireValue::Bool(b) => WireModel::Bool(b),
            WireValue::Int(i) => WireModel::Int(i),
            WireValue::Float(t) => WireModel::Float(t@),
            WireValue::Text(s) => WireModel::Text(s@),
            WireValue::Dict(fields) => WireModel::Dict(dict_model(fields@)),
            WireValue::List(items) => WireModel::List(list_model(items@)),
        }
    }
}

/// The models of an ordered key map's entries, in key order.
pub open spec fn dict_model(fields: Seq<(String, WireValue)>) -> Seq<(Seq<char>, WireModel)>
    decreases fields,
{
    if fields.len() == 0 {
        Seq::empty()
    } else {
        dict_model(fields.drop_last()).push((fields.last().0@, fields.last().1.model()))
    }
}

/// The models of an ordered list's elements, in element order.
pub open spec fn list_model(items: Seq<WireValue>) -> Seq<WireModel>
    decreases items,
{
    if items.len() == 0 {
        Seq::empty()
    } else {
        list_model(items.drop_last()).push(items.last().model())
    }
}

/// An entry of `dict_model` is the model of the entry at the same position.
pub proof fn lemma_dict_model(fields: Seq<(String, WireValue)>)
    ensures
        dict_model(fields).len() == fields.len(),
        forall|i: int|
            0 <= i < fields.len() ==> #[trigger] dict_model(fields)[i] == (
                fields[i].0@,
                fields[i].1.model(),
            ),
    decreases fields,
{
    if fields.len() > 0 {
        lemma_dict_model(fields.drop_last());
    }
}

/// An element of `list_model` is the model of the element at the same position.
pub proof fn lemma_list_model(items: Seq<WireValue>)
    ensures
        list_model(items).len() == items.len(),
        forall|i: int|
            0 <= i < items.len() ==> #[trigger] list_model(items)[i] == items[i].model(),
    decreases items,
{
    if items.len() > 0 {
        lemma_list_model(items.drop_last());
    }
}

/// The rendered text of a wire value: the compact interchange form. A
/// null, boolean or integer renders as its literal; a float as its stored
/// decimal text; a textual scalar quoted and escaped; a key map between
/// braces with `"key":value` entries separated by commas, in key order;
/// a list between square brackets, elements separated by commas, in
/// element order.
pub open spec fn wire_text(m: WireModel) -> Seq<char>
    decreases m,
{
    match m {
        WireModel::Null => "null"@,
        WireModel::Bool(b) => if b {
            "true"@
        } else {
            "false"@
        },
        WireModel::Int(i) => int_text(i as int),
        WireModel::Float(t) => t,
        WireModel::Text(s) => quoted(s),
        WireModel::Dict(fields) => seq!['{'] + dict_body_text(fields) + seq!['}'],
        WireModel::List(items) => seq!['['] + list_body_text(items, seq![',']) + seq![']'],
    }
}

/// The rendered entries of a key map, `"key":value`, separated by commas.
pub open spec fn dict_body_text(fields: Seq<(Seq<char>, WireModel)>) -> Seq<char>
    decreases fields,
{
    if fields.len() == 0 {
        Seq::empty()
    } else if fields.len() == 1 {
        quoted(fields[0].0) + seq![':'] + wire_text(fields[0].1)
    } else {
        dict_body_text(fields.drop_last()) + seq![','] + quoted(fields.last().0) + seq![':']
            + wire_text(fields.last().1)
    }
}

/// The rendered elements of a list, separated by the given separator.
pub open spec fn list_body_text(items: Seq<WireModel>, sep: Seq<char>) -> Seq<char>
    decreases items,
{
    if items.len() == 0 {
        Seq::empty()
    } else if items.len() == 1 {
        wire_text(items[0])
    } else {
        list_body_text(items.drop_last(), sep) + sep + wire_text(items.last())
    }
}

/// Appends the rendered text of a wire value.
pub fn push_wire_text(out: &mut String, w: &WireValue)
    ensures
        final(out)@ == old(out)@ + wire_text(w.model()),
    decreases *w,
{
    proof {
        reveal_strlit("null");
        reveal_strlit("true");
        reveal_strlit("false");
        reveal_strlit("{");
        reveal_strlit("}");
        reveal_strlit("[");
        reveal_strlit("]");
        reveal_strlit(",");
        reveal_strlit(":");
    }
    match w {
        WireValue::Null => out.append("null"),
        WireValue::Bool(b) => {
            if *b {
                out.append("true");
            } else {
                out.append("false");
            }
        },
        WireValue::Int(i) => push_int_text(out, *i),
        WireValue::Float(t) => out.append(t.as_str()),
        WireValue::Text(s) => push_quoted(out, s.as_str()),
        WireValue::Dict(fields) => {
            out.append("{");
            push_dict_body(out, fields);
            out.append("}");
        },
        WireValue::List(items) => {
            out.append("[");
            push_list_body(out, items, false);
            out.append("]");
        },
    }
    proof {
        assert(out@ =~= old(out)@ + wire_text(w.model()));
    }
}

/// Appends the rendered entries of a key map, `"key":value`, separated by
/// commas, in key order.
pub fn push_dict_body(out: &mut String, fields: &Vec<(String, WireValue)>)
    ensures
        final(out)@ == old(out)@ + dict_body_text(dict_model(fields@)),
    decreases *fields,
{
    let ghost m = dict_model(fields@);
    proof {
        lemma_dict_model(fields@);
    }
    let n = fields.len();
    let mut i: usize = 0;
    while i < n
        invariant
            n == fields@.len(),
            i <= n,
            m == dict_model(fields@),
            m.len() == n,
            forall|j: int| 0 <= j < n ==> #[trigger] m[j] == (fields@[j].0@, fields@[j].1.model()),
            out@ == old(out)@ + dict_body_text(m.take(i as int)),
        decreases n - i,
    {
        proof {
            reveal_strlit(",");
            reveal_strlit(":");
            assert(m.take(i + 1).drop_last() =~= m.take(i as int));
            assert(m.take(i + 1).last() == m[i as int]);
            assert(decreases_to!(*fields => fields@[i as int]));
            assert(decreases_to!(fields@[i as int] => fields@[i as int].1));
            assert(decreases_to!(*fields => fields@[i as int].1));
        }
        if i > 0 {
            out.append(",");
        }
        push_quoted(out, fields[i].0.as_str());
        out.append(":");
        push_wire_text(out, &fields[i].1);
        proof {
            assert(out@ =~= old(out)@ + dict_body_text(m.take(i + 1)));
        }
        i = i + 1;
    }
    proof {
        assert(m.take(n as int) =~= m);
    }
}

/// Appends the rendered elements of a list, in element order, separated
/// by commas, with a space after each comma when `spaced` is set.
pub fn push_list_body(out: &mut String, items: &Vec<WireValue>, spaced: bool)
    ensures
        final(out)@ == old(out)@ + list_body_text(
            list_model(items@),
            if spaced {
                seq![',', ' ']
            } else {
                seq![',']
            },
        ),
    decreases *items,
{
    let ghost sep: Seq<char> = if spaced {
        seq![',', ' ']
    } else {
        seq![',']
    };
    let ghost m = list_model(items@);
    proof {
        lemma_list_model(items@);
    }
    let n = items.len();
    let mut i: usize = 0;
    while i < n
        invariant
            n == items@.len(),
            i <= n,
            m == list_model(items@),
            m.len() == n,
            forall|j: int| 0 <= j < n ==> #[trigger] m[j] == items@[j].model(),
            sep == if spaced { seq![',', ' '] } else { seq![','] },
            out@ == old(out)@ + list_body_text(m.take(i as int), sep),
        decreases n - i,
    {
        proof {
            reveal_strlit(",");
            reveal_strlit(", ");
            assert(m.take(i + 1).drop_last() =~= m.take(i as int));
            assert(m.take(i + 1).last() == m[i as int]);
            assert(decreases_to!(*items => items@[i as int]));
        }
        if i > 0 {
            if spaced {
                out.append(", ");
            } else {
                out.append(",");
            }
            proof {
                assert(out@ =~= old(out)@ + list_body_text(m.take(i as int), sep) + sep);
            }
        }
        push_wire_text(out, &items[i]);
        proof {
            assert(out@ =~= old(out)@ + list_body_text(m.take(i + 1), sep));
        }
        i = i + 1;
    }
    proof {
        assert(m.take(n as int) =~= m);
    }
}

/// Decides structural equality of two wire values: true exactly when
/// their models are equal.
pub fn wire_eq(a: &WireValue, b: &WireValue) -> (r: bool)
    ensures
        r == (a.model() == b.model()),
    decreases *a,
{
    match (a, b) {
        (WireValue::Null, WireValue::Null) => true,
        (WireValue::Bool(x), WireValue::Bool(y)) => x == y,
        (WireValue::Int(x), WireValue::Int(y)) => x == y,
        (WireValue::Float(x), WireValue::Float(y)) => *x == *y,
        (WireValue::Text(x), WireValue::Text(y)) => *x == *y,
        (WireValue::Dict(fa), WireValue::Dict(fb)) => {
            proof {
                assert(decreases_to!(*a => a->Dict_0));
                assert(a->Dict_0 == *fa);
            }
            dict_eq(fa, fb)
        },
        (WireValue::List(ia), WireValue::List(ib)) => {
            proof {
                assert(decreases_to!(*a => a->List_0));
                assert(a->List_0 == *ia);
            }
            list_eq(ia, ib)
        },
        _ => false,
    }
}

/// Decides structural equality of two ordered key maps: true exactly
/// when their models are equal, key order included.
pub fn dict_eq(fa: &Vec<(String, WireValue)>, fb: &Vec<(String, WireValue)>) -> (r: bool)
    ensures
        r == (dict_model(fa@) == dict_model(fb@)),
    decreases *fa,
{
    let ghost ma = dict_model(fa@);
    let ghost mb = dict_model(fb@);
    proof {
        lemma_dict_model(fa@);
        lemma_dict_model(fb@);
    }
    if fa.len() != fb.len() {
        return false;
    }
    let n = fa.len();
    let mut i: usize = 0;
    while i < n
        invariant
            n == fa@.len(),
            n == fb@.len(),
            i <= n,
            ma == dict_model(fa@),
            mb == dict_model(fb@),
            ma.len() == n,
            mb.len() == n,
            forall|j: int|
                0 <= j < n ==> #[trigger] ma[j] == (fa@[j].0@, fa@[j].1.model()),
            forall|j: int|
                0 <= j < n ==> #[trigger] mb[j] == (fb@[j].0@, fb@[j].1.model()),
            forall|j: int| 0 <= j < i ==> #[trigger] ma[j] == mb[j],
        decreases n - i,
    {
        proof {
            assert(decreases_to!(*fa => fa@[i as int]));
            assert(decreases_to!(fa@[i as int] => fa@[i as int].1));
            assert(decreases_to!(*fa => fa@[i as int].1));
        }
        if !(fa[i].0 == fb[i].0) {
            proof {
                assert(ma[i as int].0 != mb[i as int].0);
                assert(ma != mb);
            }
            return false;
        }
        if !wire_eq(&fa[i].1, &fb[i].1) {
            proof {
                assert(ma[i as int].1 != mb[i as int].1);
                assert(ma != mb);
            }
            return false;
        }
        i = i + 1;
    }
    proof {
        assert(ma =~= mb);
    }
    true
}

/// Decides structural equality of two ordered lists: true exactly when
/// their models are equal, element order included.
pub fn list_eq(ia: &Vec<WireValue>, ib: &Vec<WireValue>) -> (r: bool)
    ensures
        r == (list_model(ia@) == list_model(ib@)),
    decreases *ia,
{
    let ghost ma = list_model(ia@);
    let ghost mb = list_model(ib@);
    proof {
        lemma_list_model(ia@);
        lemma_list_model(ib@);
    }
    if ia.len() != ib.len() {
        return false;
    }
    let n = ia.len();
    let mut i: usize = 0;
    while i < n
        invariant
            n == ia@.len(),
            n == ib@.len(),
            i <= n,
            ma == list_model(ia@),
            mb == list_model(ib@),
            ma.len() == n,
            mb.len() == n,
            forall|j: int| 0 <= j < n ==> #[trigger] ma[j] == ia@[j].model(),
            forall|j: int| 0 <= j < n ==> #[trigger] mb[j] == ib@[j].model(),
            forall|j: int| 0 <= j < i ==> #[trigger] ma[j] == mb[j],
        decreases n - i,
    {
        proof {
            assert(decreases_to!(*ia => ia@[i as int]));
        }
        if !wire_eq(&ia[i], &ib[i]) {
            proof {
                assert(ma[i as int] != mb[i as int]);
                assert(ma != mb);
            }
            return false;
        }
        i = i + 1;
    }
    proof {
        assert(ma =~= mb);
    }
    true
}

impl WireValue {
    /// An independent copy of this wire value, equal to it: the copy's
    /// model is the original's.
    pub fn deep_clone(&self) -> (c: WireValue)
        ensures
            c.model() == self.model(),
        decreases *self,
    {
        match self {
            WireValue::Null => WireValue::Null,
            WireValue::Bool(b) => WireValue::Bool(*b),
            WireValue::Int(i) => WireValue::Int(*i),
            WireValue::Float(t) => WireValue::Float(t.clone()),
            WireValue::Text(s) => WireValue::Text(s.clone()),
            WireValue::Dict(fields) => {
                proof {
                    assert(decreases_to!(*self => self->Dict_0));
                    assert(self->Dict_0 == *fields);
                }
                WireValue::Dict(clone_dict(fields))
            },
            WireValue::List(items) => {
                proof {
                    assert(decreases_to!(*self => self->List_0));
                    assert(self->List_0 == *items);
                }
                WireValue::List(clone_list(items))
            },
        }
    }
}

/// An independent copy of an ordered key map, with the same model.
pub fn clone_dict(fields: &Vec<(String, WireValue)>) -> (c: Vec<(String, WireValue)>)
    ensures
        dict_model(c@) == dict_model(fields@),
    decreases *fields,
{
    let ghost m = dict_model(fields@);
    proof {
        lemma_dict_model(fields@);
    }
    let n = fields.len();
    let mut c: Vec<(String, WireValue)> = Vec::new();
    let mut i: usize = 0;
    while i < n
        invariant
            n == fields@.len(),
            i <= n,
            m == dict_model(fields@),
            m.len() == n,
            forall|j: int| 0 <= j < n ==> #[trigger] m[j] == (fields@[j].0@, fields@[j].1.model()),
            c@.len() == i,
            forall|j: int|
                0 <= j < i ==> (#[trigger] c@[j]).0@ == m[j].0 && c@[j].1.model() == m[j].1,
        decreases n - i,
    {
        proof {
            assert(decreases_to!(*fields => fields@[i as int]));
            assert(decreases_to!(fields@[i as int] => fields@[i as int].1));
            assert(decreases_to!(*fields => fields@[i as int].1));
        }
        c.push((fields[i].0.clone(), fields[i].1.deep_clone()));
        i = i + 1;
    }
    proof {
        lemma_dict_model(c@);
        assert(dict_model(c@) =~= m);
    }
    c
}

/// An independent copy of an ordered list, with the same model.
pub fn clone_list(items: &Vec<WireValue>) -> (c: Vec<WireValue>)
    ensures
        list_model(c@) == list_model(items@),
    decreases *items,
{
    let ghost m = list_model(items@);
    proof {
        lemma_list_model(items@);
    }
    let n = items.len();
    let mut c: Vec<WireValue> = Vec::new();
    let mut i: usize = 0;
    while i < n
        invariant
            n == items@.len(),
            i <= n,
            m == list_model(items@),
            m.len() == n,
            forall|j: int| 0 <= j < n ==> #[trigger] m[j] == items@[j].model(),
            c@.len() == i,
            forall|j: int| 0 <= j < i ==> #[trigger] c@[j].model() == m[j],
        decreases n - i,
    {
        proof {
            assert(decreases_to!(*items => items@[i as int]));
        }
        c.push(items[i].deep_clone());
        i = i + 1;
    }
    proof {
        lemma_list_model(c@);
        assert(list_model(c@) =~= m);
    }
    c
}

impl PartialEq for WireValue {
    /// Equality is structural: two wire values are equal exactly when
    /// their models are equal.
    fn eq(&self, other: &WireValue) -> (r: bool) {
        wire_eq(self, other)
    }
}

impl vstd::std_specs::cmp::PartialEqSpecImpl for WireValue {
    open spec fn obeys_eq_spec() -> bool {
        true
    }

    open spec fn eq_spec(&self, other: &WireValue) -> bool {
        self.model() == other.model()
    }
}

impl WireValue {
    /// Widens an 8-bit signed numeric literal into the integral shape.
    pub fn from_i8(x: i8) -> (w: WireValue)
        ensures
            w == WireValue::Int(x as i64),
    {
        WireValue::Int(x as i64)
    }

    /// Widens a 16-bit signed numeric literal into the integral shape.
    pub fn from_i16(x: i16) -> (w: WireValue)
        ensures
            w == WireValue::Int(x as i64),
    {
        WireValue::Int(x as i64)
    }

    /// Widens a 32-bit signed numeric literal into the integral shape.
    pub fn from_i32(x: i32) -> (w: WireValue)
        ensures
            w == WireValue::Int(x as i64),
    {
        WireValue::Int(x as i64)
    }

    /// Widens an 8-bit unsigned numeric literal into the integral shape.
    pub fn from_u8(x: u8) -> (w: WireValue)
        ensures
            w == WireValue::Int(x as i64),
    {
        WireValue::Int(x as i64)
    }

    /// Widens a 16-bit unsigned numeric literal into the integral shape.
    pub fn from_u16(x: u16) -> (w: WireValue)
        ensures
            w == WireValue::Int(x as i64),
    {
        WireValue::Int(x as i64)
    }

    /// Widens a 32-bit unsigned numeric literal into the integral shape.
    pub fn from_u32(x: u32) -> (w: WireValue)
        ensures
            w == WireValue::Int(x as i64),
    {
        WireValue::Int(x as i64)
    }

    /// Widens a 64-bit unsigned numeric literal into the integral shape.
    /// The standard's value ranges never require the top bit, so the
    /// literal must fit the 64-bit signed range.
    pub fn from_u64(x: u64) -> (w: WireValue)
        requires
            x <= 0x7fff_ffff_ffff_ffff,
        ensures
            w == WireValue::Int(x as i64),
    {
        WireValue::Int(x as i64)
    }

    /// Builds the textual shape holding one character; a single-character
    /// textual scalar is an ordinary one-character text, not a special
    /// case.
    pub fn from_char(c: char) -> (w: WireValue)
        ensures
            w.model() == WireModel::Text(seq![c]),
    {
        let mut s = String::new();
        push_char(&mut s, c);
        proof {
            assert(s@ =~= seq![c]);
        }
        WireValue::Text(s)
    }
}

} // verus!
