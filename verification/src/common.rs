//! The polymorphic parameter-value model: a closed variant type over the
//! seven wire shapes, the total decoder that classifies an incoming wire
//! value by structural inspection, the encoder that renders a value back
//! to its self-describing wire form, and the scalar accessors; and the
//! action parameter record that embeds a value under a key.

use vstd::prelude::*;
use vstd::string::*;

use crate::text::int_text;
use crate::text::push_int_text;
use crate::wire::WireModel;
use crate::wire::WireValue;
use crate::wire::dict_body_text;
use crate::wire::dict_model;
use crate::wire::list_body_text;
use crate::wire::list_model;
use crate::wire::push_dict_body;
use crate::wire::push_list_body;

verus! {

/// The declared data type of a parameter value: an advisory hint carried
/// beside the value, never validated against the decoded variant.
#[derive(Debug, Clone, Copy, PartialEq, Eq, Structural)]
pub enum ValueDataType {
    Bool,
    Number,
    Integer,
    Float,
    String,
    Object,
    Array,
}

/// A parameter value that can hold any of the wire shapes. Exactly one
/// variant is active at a time, and no companion type tag is needed: the
/// wire shape itself selects the variant.
///
/// `Number` and `Float` are two historical names for the same semantic
/// role — a 64-bit float, held as its canonical decimal text — kept from
/// different schema generations. The decoder only produces `Float`.
#[derive(Debug)]
pub enum ParameterValue {
    /// An explicit null value, distinct from an absent field.
    Null,
    /// A boolean.
    Bool(bool),
    /// A 64-bit float under its historical name, as canonical decimal text.
    Number(String),
    /// A signed 64-bit whole number.
    Integer(i64),
    /// A 64-bit float, as canonical decimal text with the fractional part
    /// kept, so the integer/float distinction survives a round trip.
    Float(String),
    /// UTF-8 text.
    String(String),
    /// A structurally typed key/value mapping, opaque to this layer:
    /// nested content is stored, not interpreted. Key order is preserved.
    Object(Vec<(String, WireValue)>),
    /// An ordered sequence of structurally typed values, opaque to this
    /// layer. Element order is preserved.
    Array(Vec<WireValue>),
}

/// The mathematical shape of a parameter value.
pub enum ValueModel {
    Null,
    Bool(bool),
    Number(Seq<char>),
    Integer(i64),
    Float(Seq<char>),
    String(Seq<char>),
    Object(Seq<(Seq<char>, WireModel)>),
    Array(Seq<WireModel>),
}

impl ParameterValue {
    /// The mathematical shape of this value.
    pub open spec fn model(self) -> ValueModel {
        match self {
            ParameterValue::Null => ValueModel::Null,
            ParameterValue::Bool(b) => ValueModel::Bool(b),
            ParameterValue::Number(t) => ValueModel::Number(t@),
            ParameterValue::Integer(i) => ValueModel::Integer(i),
            ParameterValue::Float(t) => ValueModel::Float(t@),
            ParameterValue::String(s) => ValueModel::String(s@),
            ParameterValue::Object(fields) => ValueModel::Object(dict_model(fields@)),
            ParameterValue::Array(items) => ValueModel::Array(list_model(items@)),
        }
    }

    /// The variant each wire shape decodes to. Decoding is total: every
    /// wire value maps to exactly one variant, in the fixed precedence
    /// order null, boolean, integer, float, text, key map, list. The
    /// stored content is taken over unchanged, so key order and element
    /// order are preserved.
    pub open spec fn spec_decode(w: WireValue) -> ParameterValue {
        match w {
            WireValue::Null => ParameterValue::Null,
            WireValue::Bool(b) => ParameterValue::Bool(b),
            WireValue::Int(i) => ParameterValue::Integer(i),
            WireValue::Float(t) => ParameterValue::Float(t),
            WireValue::Text(s) => ParameterValue::String(s),
            WireValue::Dict(fields) => ParameterValue::Object(fields),
            WireValue::List(items) => ParameterValue::Array(items),
        }
    }

    /// Decodes an incoming wire value by structural inspection. Never
    /// fails: the dispatch is total over the wire grammar.
    pub fn decode(w: WireValue) -> (v: ParameterValue)
        ensures
            v == ParameterValue::spec_decode(w),
    {
        match w {
            WireValue::Null => ParameterValue::Null,
            WireValue::Bool(b) => ParameterValue::Bool(b),
            WireValue::Int(i) => ParameterValue::Integer(i),
            WireValue::Float(t) => ParameterValue::Float(t),
            WireValue::Text(s) => ParameterValue::String(s),
            WireValue::Dict(fields) => ParameterValue::Object(fields),
            WireValue::List(items) => ParameterValue::Array(items),
        }
    }

    /// The wire shape each variant encodes to: one shape per variant, no
    /// discriminator emitted. `Number` and `Float` both encode to the
    /// floating-point shape.
    pub open spec fn spec_encode(self) -> WireValue {
        match self {
            ParameterValue::Null => WireValue::Null,
            ParameterValue::Bool(b) => WireValue::Bool(b),
            ParameterValue::Number(t) => WireValue::Float(t),
            ParameterValue::Integer(i) => WireValue::Int(i),
            ParameterValue::Float(t) => WireValue::Float(t),
            ParameterValue::String(s) => WireValue::Text(s),
            ParameterValue::Object(fields) => WireValue::Dict(fields),
            ParameterValue::Array(items) => WireValue::List(items),
        }
    }

    /// Renders this value back to its wire form: a pure structural
    /// mapping; the stored content is handed over unchanged.
    pub fn encode(self) -> (w: WireValue)
        ensures
            w == self.spec_encode(),
    {
        match self {
            ParameterValue::Null => WireValue::Null,
            ParameterValue::Bool(b) => WireValue::Bool(b),
            ParameterValue::Number(t) => WireValue::Float(t),
            ParameterValue::Integer(i) => WireValue::Int(i),
            ParameterValue::Float(t) => WireValue::Float(t),
            ParameterValue::String(s) => WireValue::Text(s),
            ParameterValue::Object(fields) => WireValue::Dict(fields),
            ParameterValue::Array(items) => WireValue::List(items),
        }
    }
}

/// The total textual projection of a parameter value, for diagnostics: a
/// null, boolean or integer as its literal text; a float as its stored
/// decimal text; text unchanged; a key map as its rendered wire form; a
/// list between square brackets with comma-and-space element separation.
/// It is for reading, not for the wire: the wire form of a value is its
/// encoding, not this text.
pub open spec fn value_text(m: ValueModel) -> Seq<char> {
    match m {
        ValueModel::Null => "null"@,
        ValueModel::Bool(b) => if b {
            "true"@
        } else {
            "false"@
        },
        ValueModel::Number(t) => t,
        ValueModel::Integer(i) => int_text(i as int),
        ValueModel::Float(t) => t,
        ValueModel::String(s) => s,
        ValueModel::Object(fields) => seq!['{'] + dict_body_text(fields) + seq!['}'],
        ValueModel::Array(items) => seq!['['] + list_body_text(items, seq![',', ' ']) + seq![']'],
    }
}

impl ParameterValue {
    /// The textual projection of this value, one total operation over
    /// every variant, regardless of which is active.
    pub fn get_value(&self) -> (s: String)
        ensures
            s@ == value_text(self.model()),
    {
        proof {
            reveal_strlit("null");
            reveal_strlit("true");
            reveal_strlit("false");
            reveal_strlit("{");
            reveal_strlit("}");
            reveal_strlit("[");
            reveal_strlit("]");
        }
        let mut s = String::new();
        match self {
            ParameterValue::Null => s.append("null"),
            ParameterValue::Bool(b) => {
                if *b {
                    s.append("true");
                } else {
                    s.append("false");
                }
            },
            ParameterValue::Number(t) => s.append(t.as_str()),
            ParameterValue::Integer(i) => push_int_text(&mut s, *i),
            ParameterValue::Float(t) => s.append(t.as_str()),
            ParameterValue::String(t) => s.append(t.as_str()),
            ParameterValue::Object(fields) => {
                s.append("{");
                push_dict_body(&mut s, fields);
                s.append("}");
            },
            ParameterValue::Array(items) => {
                s.append("[");
                push_list_body(&mut s, items, true);
                s.append("]");
            },
        }
        proof {
            assert(s@ =~= value_text(self.model()));
        }
        s
    }

    /// The same textual projection under its other historical name.
    pub fn get_internal_value(&self) -> (s: String)
        ensures
            s@ == value_text(self.model()),
    {
        self.get_value()
    }

    /// The boolean content, when the boolean variant is active; absence
    /// otherwise. A mismatch is not an error: callers probe shapes.
    pub fn as_bool(&self) -> (r: Option<bool>)
        ensures
            r is Some <==> self is Bool,
            r matches Some(b) ==> *self == ParameterValue::Bool(b),
    {
        match self {
            ParameterValue::Bool(b) => Some(*b),
            _ => None,
        }
    }

    /// The decimal text of the float under its historical `Number` name,
    /// when that variant is active; absence otherwise.
    pub fn as_number(&self) -> (r: Option<&String>)
        ensures
            r is Some <==> self is Number,
            r matches Some(t) ==> *self == ParameterValue::Number(*t),
    {
        match self {
            ParameterValue::Number(t) => Some(t),
            _ => None,
        }
    }

    /// The whole-number content, when the integer variant is active;
    /// absence otherwise.
    pub fn as_integer(&self) -> (r: Option<i64>)
        ensures
            r is Some <==> self is Integer,
            r matches Some(i) ==> *self == ParameterValue::Integer(i),
    {
        match self {
            ParameterValue::Integer(i) => Some(*i),
            _ => None,
        }
    }

    /// The decimal text of the float, when the float variant is active;
    /// absence otherwise.
    pub fn as_float(&self) -> (r: Option<&String>)
        ensures
            r is Some <==> self is Float,
            r matches Some(t) ==> *self == ParameterValue::Float(*t),
    {
        match self {
            ParameterValue::Float(t) => Some(t),
            _ => None,
        }
    }

    /// The textual content, when the string variant is active; absence
    /// otherwise.
    pub fn as_string(&self) -> (r: Option<&String>)
        ensures
            r is Some <==> self is String,
            r matches Some(t) ==> *self == ParameterValue::String(*t),
    {
        match self {
            ParameterValue::String(t) => Some(t),
            _ => None,
        }
    }

    /// The key/value entries, when the object variant is active; absence
    /// otherwise.
    pub fn as_object(&self) -> (r: Option<&Vec<(String, WireValue)>>)
        ensures
            r is Some <==> self is Object,
            r matches Some(fields) ==> *self == ParameterValue::Object(*fields),
    {
        match self {
            ParameterValue::Object(fields) => Some(fields),
            _ => None,
        }
    }

    /// The rendered wire text of the object, when the object variant is
    /// active; absence otherwise.
    pub fn as_object_string(&self) -> (r: Option<String>)
        ensures
            r is Some <==> self is Object,
            r matches Some(s) ==> s@ == value_text(self.model()),
    {
        proof {
            reveal_strlit("{");
            reveal_strlit("}");
        }
        match self {
            ParameterValue::Object(fields) => {
                let mut s = String::new();
                s.append("{");
                push_dict_body(&mut s, fields);
                s.append("}");
                proof {
                    assert(s@ =~= value_text(self.model()));
                }
                Some(s)
            },
            _ => None,
        }
    }

    /// The elements, when the array variant is active; absence otherwise.
    pub fn as_array(&self) -> (r: Option<&Vec<WireValue>>)
        ensures
            r is Some <==> self is Array,
            r matches Some(items) ==> *self == ParameterValue::Array(*items),
    {
        match self {
            ParameterValue::Array(items) => Some(items),
            _ => None,
        }
    }

    /// The rendered wire text of each element, in element order, when the
    /// array variant is active; absence otherwise.
    pub fn as_array_strings(&self) -> (r: Option<Vec<String>>)
        ensures
            r is Some <==> self is Array,
            r matches Some(texts) ==> {
                &&& self.model() matches ValueModel::Array(m)
                &&& texts@.len() == m.len()
                &&& forall|i: int|
                    0 <= i < m.len() ==> #[trigger] texts@[i]@ == crate::wire::wire_text(m[i])
            },
    {
        match self {
            ParameterValue::Array(items) => {
                let ghost m = list_model(items@);
                proof {
                    crate::wire::lemma_list_model(items@);
                }
                let mut texts: Vec<String> = Vec::new();
                let n = items.len();
                let mut i: usize = 0;
                while i < n
                    invariant
                        n == items@.len(),
                        i <= n,
                        m == list_model(items@),
                        m.len() == n,
                        forall|j: int| 0 <= j < n ==> #[trigger] m[j] == items@[j].model(),
                        texts@.len() == i,
                        forall|j: int|
                            0 <= j < i ==> #[trigger] texts@[j]@ == crate::wire::wire_text(m[j]),
                    decreases n - i,
                {
                    let mut s = String::new();
                    crate::wire::push_wire_text(&mut s, &items[i]);
                    texts.push(s);
                    i = i + 1;
                }
                Some(texts)
            },
            _ => None,
        }
    }

    /// An independent copy of this value, equal to it: the copy's model
    /// is the original's.
    pub fn deep_clone(&self) -> (c: ParameterValue)
        ensures
            c.model() == self.model(),
    {
        match self {
            ParameterValue::Null => ParameterValue::Null,
            ParameterValue::Bool(b) => ParameterValue::Bool(*b),
            ParameterValue::Number(t) => ParameterValue::Number(t.clone()),
            ParameterValue::Integer(i) => ParameterValue::Integer(*i),
            ParameterValue::Float(t) => ParameterValue::Float(t.clone()),
            ParameterValue::String(s) => ParameterValue::String(s.clone()),
            ParameterValue::Object(fields) => ParameterValue::Object(crate::wire::clone_dict(fields)),
            ParameterValue::Array(items) => ParameterValue::Array(crate::wire::clone_list(items)),
        }
    }

    /// Whether the null variant is active: true for it and for no other
    /// variant.
    pub fn is_null(&self) -> (r: bool)
        ensures
            r == (self is Null),
    {
        match self {
            ParameterValue::Null => true,
            _ => false,
        }
    }
}

impl PartialEq for ParameterValue {
    /// Equality is structural: two values are equal exactly when their
    /// models are equal, whichever way each was constructed.
    fn eq(&self, other: &ParameterValue) -> (r: bool) {
        match (self, other) {
            (ParameterValue::Null, ParameterValue::Null) => true,
            (ParameterValue::Bool(x), ParameterValue::Bool(y)) => x == y,
            (ParameterValue::Number(x), ParameterValue::Number(y)) => *x == *y,
            (ParameterValue::Integer(x), ParameterValue::Integer(y)) => x == y,
            (ParameterValue::Float(x), ParameterValue::Float(y)) => *x == *y,
            (ParameterValue::String(x), ParameterValue::String(y)) => *x == *y,
            (ParameterValue::Object(fa), ParameterValue::Object(fb)) => crate::wire::dict_eq(
                fa,
                fb,
            ),
            (ParameterValue::Array(ia), ParameterValue::Array(ib)) => crate::wire::list_eq(
                ia,
                ib,
            ),
            _ => false,
        }
    }
}

impl vstd::std_specs::cmp::PartialEqSpecImpl for ParameterValue {
    open spec fn obeys_eq_spec() -> bool {
        true
    }

    open spec fn eq_spec(&self, other: &ParameterValue) -> bool {
        self.model() == other.model()
    }
}

/// The wire name of each declared data type: the upper-case token the
/// type hint is rendered as.
pub open spec fn spec_data_type_token(t: ValueDataType) -> Seq<char> {
    match t {
        ValueDataType::Bool => "BOOL"@,
        ValueDataType::Number => "NUMBER"@,
        ValueDataType::Integer => "INTEGER"@,
        ValueDataType::Float => "FLOAT"@,
        ValueDataType::String => "STRING"@,
        ValueDataType::Object => "OBJECT"@,
        ValueDataType::Array => "ARRAY"@,
    }
}

impl ValueDataType {
    /// The upper-case wire token of this declared data type.
    pub fn wire_token(self) -> (t: &'static str)
        ensures
            t@ == spec_data_type_token(self),
    {
        match self {
            ValueDataType::Bool => "BOOL",
            ValueDataType::Number => "NUMBER",
            ValueDataType::Integer => "INTEGER",
            ValueDataType::Float => "FLOAT",
            ValueDataType::String => "STRING",
            ValueDataType::Object => "OBJECT",
            ValueDataType::Array => "ARRAY",
        }
    }
}

/// An action parameter: a key naming the parameter, an optional advisory
/// type hint, the value itself, and optional metadata. The hint is never
/// validated against the value's variant: the two may disagree, and a
/// record with a disagreeing pair is accepted as the standard accepts it.
#[derive(Debug)]
pub struct ActionParameter {
    /// The key naming the parameter.
    pub key: String,
    /// The declared data type of the value: advisory only.
    pub value_data_type: Option<ValueDataType>,
    /// The value of the parameter; its wire shape, not the hint,
    /// determines its variant.
    pub value: ParameterValue,
    /// Free-text description of the parameter.
    pub description: Option<String>,
    /// Whether the parameter is optional.
    pub is_optional: Option<bool>,
}

/// The mathematical shape of an action parameter record.
pub struct ParamModel {
    pub key: Seq<char>,
    pub value_data_type: Option<ValueDataType>,
    pub value: ValueModel,
    pub description: Option<Seq<char>>,
    pub is_optional: Option<bool>,
}

impl ActionParameter {
    /// The mathematical shape of this record.
    pub open spec fn model(self) -> ParamModel {
        ParamModel {
            key: self.key@,
            value_data_type: self.value_data_type,
            value: self.value.model(),
            description: match self.description {
                Some(d) => Some(d@),
                None => None,
            },
            is_optional: self.is_optional,
        }
    }

    /// The wire form of this record: a key map under the wire field-name
    /// convention (camel case), holding `key` and `value` always, and each
    /// optional field only when it has a value — an absent optional field
    /// is omitted entirely, not rendered as null. An explicit null value
    /// is a present `value` entry holding the null shape.
    pub open spec fn spec_to_wire(self) -> WireModel {
        WireModel::Dict(
            seq![("key"@, WireModel::Text(self.key@))] + (match self.value_data_type {
                Some(t) => seq![("valueDataType"@, WireModel::Text(spec_data_type_token(t)))],
                None => Seq::empty(),
            }) + seq![("value"@, self.value.spec_encode().model())] + (match self.description {
                Some(d) => seq![("description"@, WireModel::Text(d@))],
                None => Seq::empty(),
            }) + (match self.is_optional {
                Some(b) => seq![("isOptional"@, WireModel::Bool(b))],
                None => Seq::empty(),
            }),
        )
    }

    /// Renders this record to its wire form, suppressing absent optional
    /// fields.
    pub fn to_wire(self) -> (w: WireValue)
        ensures
            w.model() == self.spec_to_wire(),
    {
        proof {
            reveal_strlit("key");
            reveal_strlit("valueDataType");
            reveal_strlit("value");
            reveal_strlit("description");
            reveal_strlit("isOptional");
        }
        let ghost g = self;
        let ActionParameter { key, value_data_type, value, description, is_optional } = self;
        let mut fields: Vec<(String, WireValue)> = Vec::new();
        fields.push((String::from_str("key"), WireValue::Text(key)));
        if let Some(t) = value_data_type {
            fields.push(
                (String::from_str("valueDataType"), WireValue::Text(String::from_str(t.wire_token()))),
            );
        }
        fields.push((String::from_str("value"), value.encode()));
        if let Some(d) = description {
            fields.push((String::from_str("description"), WireValue::Text(d)));
        }
        if let Some(b) = is_optional {
            fields.push((String::from_str("isOptional"), WireValue::Bool(b)));
        }
        let w = WireValue::Dict(fields);
        proof {
            crate::wire::lemma_dict_model(fields@);
            assert(dict_model(fields@) =~= g.spec_to_wire()->Dict_0);
        }
        w
    }
}

impl ActionParameter {
    /// An independent copy of this record, equal to it: the copy's model
    /// is the original's.
    pub fn deep_clone(&self) -> (c: ActionParameter)
        ensures
            c.model() == self.model(),
    {
        ActionParameter {
            key: self.key.clone(),
            value_data_type: self.value_data_type,
            value: self.value.deep_clone(),
            description: match &self.description {
                Some(d) => Some(d.clone()),
                None => None,
            },
            is_optional: self.is_optional,
        }
    }
}

impl Default for ActionParameter {
    /// The default record: an empty key, a null value, and every optional
    /// field absent.
    fn default() -> (d: Self)
        ensures
            d.key@ == Seq::<char>::empty(),
            d.value_data_type is None,
            d.value == ParameterValue::Null,
            d.description is None,
            d.is_optional is None,
    {
        ActionParameter {
            key: String::new(),
            value_data_type: None,
            value: ParameterValue::Null,
            description: None,
            is_optional: None,
        }
    }
}

impl PartialEq for ActionParameter {
    /// Equality is structural: two records are equal exactly when their
    /// models are equal, field by field.
    fn eq(&self, other: &ActionParameter) -> (r: bool) {
        let key_eq = self.key == other.key;
        let dt_eq = match (self.value_data_type, other.value_data_type) {
            (None, None) => true,
            (Some(a), Some(b)) => a == b,
            _ => false,
        };
        let value_eq = self.value == other.value;
        let desc_eq = match (&self.description, &other.description) {
            (None, None) => true,
            (Some(a), Some(b)) => *a == *b,
            _ => false,
        };
        let opt_eq = match (self.is_optional, other.is_optional) {
            (None, None) => true,
            (Some(a), Some(b)) => a == b,
            _ => false,
        };
        key_eq && dt_eq && value_eq && desc_eq && opt_eq
    }
}

impl vstd::std_specs::cmp::PartialEqSpecImpl for ActionParameter {
    open spec fn obeys_eq_spec() -> bool {
        true
    }

    open spec fn eq_spec(&self, other: &ActionParameter) -> bool {
        self.model() == other.model()
    }
}

/// Law: a record with every optional field absent renders with none of
/// those field names present: its wire form holds exactly the `key` and
/// `value` entries. In particular an explicit null value is still a
/// present `value` entry holding the null shape, so an absent field and a
/// null value stay distinguishable.
pub proof fn lemma_optional_field_suppression(p: ActionParameter)
    requires
        p.value_data_type is None,
        p.description is None,
        p.is_optional is None,
    ensures
        p.spec_to_wire() == WireModel::Dict(
            seq![
                ("key"@, WireModel::Text(p.key@)),
                ("value"@, p.value.spec_encode().model()),
            ],
        ),
        p.value is Null ==> p.spec_to_wire() == WireModel::Dict(
            seq![("key"@, WireModel::Text(p.key@)), ("value"@, WireModel::Null)],
        ),
{
    assert(p.spec_to_wire()->Dict_0 =~= seq![
        ("key"@, WireModel::Text(p.key@)),
        ("value"@, p.value.spec_encode().model()),
    ]);
}

/// Law: record equality is structural. Two records — however each was
/// constructed — are equal exactly when every field agrees: the key text,
/// the type hint, the value model, the description text, and the
/// optionality flag. Differing in any one field makes them unequal.
pub proof fn lemma_record_equality_structural(a: ActionParameter, b: ActionParameter)
    ensures
        (a.model() == b.model()) <==> {
            &&& a.key@ == b.key@
            &&& a.value_data_type == b.value_data_type
            &&& a.value.model() == b.value.model()
            &&& a.model().description == b.model().description
            &&& a.is_optional == b.is_optional
        },
{
}

/// Law: decoding a wire value and encoding the result yields the original
/// wire value, for every wire shape. Key maps keep their key order and
/// lists their element order, since the decoder stores both unchanged.
pub proof fn lemma_decode_encode_round_trip(w: WireValue)
    ensures
        ParameterValue::spec_decode(w).spec_encode() == w,
{
    match w {
        WireValue::Null => {},
        WireValue::Bool(_) => {},
        WireValue::Int(_) => {},
        WireValue::Float(_) => {},
        WireValue::Text(_) => {},
        WireValue::Dict(_) => {},
        WireValue::List(_) => {},
    }
}

/// Law: encoding a value and decoding the result yields the value back,
/// except that the historical `Number` name comes back under the `Float`
/// name with the same text, the two being one semantic role.
pub proof fn lemma_encode_decode_round_trip(v: ParameterValue)
    ensures
        !(v is Number) ==> ParameterValue::spec_decode(v.spec_encode()) == v,
        v is Number ==> ParameterValue::spec_decode(v.spec_encode()) == ParameterValue::Float(
            v->Number_0,
        ),
{
    match v {
        ParameterValue::Null => {},
        ParameterValue::Bool(_) => {},
        ParameterValue::Number(_) => {},
        ParameterValue::Integer(_) => {},
        ParameterValue::Float(_) => {},
        ParameterValue::String(_) => {},
        ParameterValue::Object(_) => {},
        ParameterValue::Array(_) => {},
    }
}

} // verus!
