//! Node actions: the action record that carries a list of parameters,
//! its blocking policy, and the minimal, earlier parameter shape that
//! holds only a key and a scalar value.

use vstd::prelude::*;
use vstd::string::*;

use crate::common::ActionParameter;
use crate::common::ParamModel;
use crate::common::ValueModel;
use crate::wire::WireModel;
use crate::wire::WireValue;
use crate::wire::dict_model;
use crate::wire::list_model;

verus! {

/// Whether an action may run during movement or beside other actions.
#[derive(Debug, Clone, Copy, PartialEq, Eq, Structural)]
pub enum BlockingType {
    /// The action can happen in parallel with others, including movement;
    /// its wire token is `NONE`.
    NoBlocking,
    /// The action can happen beside others, but not while moving.
    Soft,
    /// No other action can be performed while this action runs.
    Hard,
}

/// The wire name of each blocking type: the upper-case token it is
/// rendered as.
pub open spec fn spec_blocking_token(b: BlockingType) -> Seq<char> {
    match b {
        BlockingType::NoBlocking => "NONE"@,
        BlockingType::Soft => "SOFT"@,
        BlockingType::Hard => "HARD"@,
    }
}

impl BlockingType {
    /// The upper-case wire token of this blocking type.
    pub fn wire_token(self) -> (t: &'static str)
        ensures
            t@ == spec_blocking_token(self),
    {
        match self {
            BlockingType::NoBlocking => "NONE",
            BlockingType::Soft => "SOFT",
            BlockingType::Hard => "HARD",
        }
    }
}

/// A node action: its type, its identifier, an optional description, its
/// blocking policy, and the parameters the action takes.
#[derive(Debug)]
pub struct Action {
    /// The name identifying the function of the action.
    pub action_type: String,
    /// An identifier distinguishing multiple actions of the same type on
    /// the same node or edge.
    pub action_id: String,
    /// Additional information on the action.
    pub action_description: Option<String>,
    /// Whether the action may run during movement or beside others.
    pub blocking_type: BlockingType,
    /// The parameters of the action, in order.
    pub action_parameters: Vec<ActionParameter>,
}

/// The mathematical shape of an action record.
pub struct ActionModel {
    pub action_type: Seq<char>,
    pub action_id: Seq<char>,
    pub action_description: Option<Seq<char>>,
    pub blocking_type: BlockingType,
    pub action_parameters: Seq<ParamModel>,
}

/// The wire forms of a sequence of action parameters, in order.
pub open spec fn params_wire(params: Seq<ActionParameter>) -> Seq<WireModel> {
    Seq::new(params.len(), |i: int| params[i].spec_to_wire())
}

impl Action {
    /// The mathematical shape of this action.
    pub open spec fn model(self) -> ActionModel {
        ActionModel {
            action_type: self.action_type@,
            action_id: self.action_id@,
            action_description: match self.action_description {
                Some(d) => Some(d@),
                None => None,
            },
            blocking_type: self.blocking_type,
            action_parameters: Seq::new(
                self.action_parameters@.len(),
                |i: int| self.action_parameters@[i].model(),
            ),
        }
    }

    /// The wire form of this action: a key map under the wire field-name
    /// convention (camel case) holding the type, the identifier, the
    /// description only when present, the blocking token, and the
    /// parameters as a list of their wire forms, in order.
    pub open spec fn spec_to_wire(self) -> WireModel {
        WireModel::Dict(
            seq![
                ("actionType"@, WireModel::Text(self.action_type@)),
                ("actionId"@, WireModel::Text(self.action_id@)),
            ] + (match self.action_description {
                Some(d) => seq![("actionDescription"@, WireModel::Text(d@))],
                None => Seq::empty(),
            }) + seq![
                ("blockingType"@, WireModel::Text(spec_blocking_token(self.blocking_type))),
                ("actionParameters"@, WireModel::List(params_wire(self.action_parameters@))),
            ],
        )
    }

    /// Renders this action to its wire form, suppressing the absent
    /// optional description.
    pub fn to_wire(self) -> (w: WireValue)
        ensures
            w.model() == self.spec_to_wire(),
    {
        proof {
            reveal_strlit("actionType");
            reveal_strlit("actionId");
            reveal_strlit("actionDescription");
            reveal_strlit("blockingType");
            reveal_strlit("actionParameters");
        }
        let ghost g = self;
        let Action { action_type, action_id, action_description, blocking_type, action_parameters } =
            self;
        let ghost total = action_parameters@;
        let mut rest = action_parameters;
        let mut rendered: Vec<WireValue> = Vec::new();
        while rest.len() > 0
            invariant
                rendered@.len() + rest@.len() == total.len(),
                rest@ == total.skip(rendered@.len() as int),
                forall|j: int|
                    0 <= j < rendered@.len() ==> #[trigger] rendered@[j].model()
                        == total[j].spec_to_wire(),
            decreases rest@.len(),
        {
            let ghost done = rendered@.len() as int;
            let p = rest.remove(0);
            proof {
                assert(p == total[done]);
                assert(rest@ =~= total.skip(done + 1));
            }
            rendered.push(p.to_wire());
        }
        let ghost pw = params_wire(total);
        proof {
            crate::wire::lemma_list_model(rendered@);
            assert(list_model(rendered@) =~= pw);
        }
        let mut fields: Vec<(String, WireValue)> = Vec::new();
        fields.push((String::from_str("actionType"), WireValue::Text(action_type)));
        fields.push((String::from_str("actionId"), WireValue::Text(action_id)));
        if let Some(d) = action_description {
            fields.push((String::from_str("actionDescription"), WireValue::Text(d)));
        }
        fields.push(
            (String::from_str("blockingType"), WireValue::Text(String::from_str(blocking_type.wire_token()))),
        );
        fields.push((String::from_str("actionParameters"), WireValue::List(rendered)));
        let w = WireValue::Dict(fields);
        proof {
            crate::wire::lemma_dict_model(fields@);
            assert(dict_model(fields@) =~= g.spec_to_wire()->Dict_0);
        }
        w
    }
}

impl Action {
    /// An independent copy of this action, equal to it: the copy's model
    /// is the original's.
    pub fn deep_clone(&self) -> (c: Action)
        ensures
            c.model() == self.model(),
    {
        let n = self.action_parameters.len();
        let mut params: Vec<ActionParameter> = Vec::new();
        let mut i: usize = 0;
        while i < n
            invariant
                n == self.action_parameters@.len(),
                i <= n,
                params@.len() == i,
                forall|j: int|
                    0 <= j < i ==> #[trigger] params@[j].model()
                        == self.action_parameters@[j].model(),
            decreases n - i,
        {
            params.push(self.action_parameters[i].deep_clone());
            i = i + 1;
        }
        let c = Action {
            action_type: self.action_type.clone(),
            action_id: self.action_id.clone(),
            action_description: match &self.action_description {
                Some(d) => Some(d.clone()),
                None => None,
            },
            blocking_type: self.blocking_type,
            action_parameters: params,
        };
        proof {
            assert(c.model().action_parameters =~= self.model().action_parameters);
        }
        c
    }
}

impl PartialEq for Action {
    /// Equality is structural: two actions are equal exactly when their
    /// models are equal, parameters compared in order.
    fn eq(&self, other: &Action) -> (r: bool) {
        let head_eq = self.action_type == other.action_type && self.action_id == other.action_id
            && match (&self.action_description, &other.action_description) {
            (None, None) => true,
            (Some(a), Some(b)) => *a == *b,
            _ => false,
        } && self.blocking_type == other.blocking_type;
        if !head_eq {
            return false;
        }
        if self.action_parameters.len() != other.action_parameters.len() {
            proof {
                assert(self.model().action_parameters.len()
                    != other.model().action_parameters.len());
            }
            return false;
        }
        let n = self.action_parameters.len();
        let mut i: usize = 0;
        while i < n
            invariant
                n == self.action_parameters@.len(),
                n == other.action_parameters@.len(),
                i <= n,
                head_eq,
                self.action_type@ == other.action_type@,
                self.action_id@ == other.action_id@,
                self.model().action_description == other.model().action_description,
                self.blocking_type == other.blocking_type,
                forall|j: int|
                    0 <= j < i ==> #[trigger] self.action_parameters@[j].model()
                        == other.action_parameters@[j].model(),
            decreases n - i,
        {
            if !(self.action_parameters[i] == other.action_parameters[i]) {
                proof {
                    assert(self.model().action_parameters[i as int]
                        != other.model().action_parameters[i as int]);
                }
                return false;
            }
            i = i + 1;
        }
        proof {
            assert(self.model().action_parameters =~= other.model().action_parameters);
        }
        true
    }
}

impl vstd::std_specs::cmp::PartialEqSpecImpl for Action {
    open spec fn obeys_eq_spec() -> bool {
        true
    }

    open spec fn eq_spec(&self, other: &Action) -> bool {
        self.model() == other.model()
    }
}

/// The value of the minimal, earlier parameter shape: scalars only — it
/// has no key-map or list variant. Its float carries the historical
/// `Number` name.
#[derive(Debug)]
pub enum ActionParameterValue {
    /// A boolean.
    Bool(bool),
    /// A 64-bit float, as canonical decimal text.
    Number(String),
    /// A signed 64-bit whole number.
    Integer(i64),
    /// UTF-8 text.
    String(String),
}

impl ActionParameterValue {
    /// The mathematical shape of this value, shared with the richer
    /// family's value model.
    pub open spec fn model(self) -> ValueModel {
        match self {
            ActionParameterValue::Bool(b) => ValueModel::Bool(b),
            ActionParameterValue::Number(t) => ValueModel::Number(t@),
            ActionParameterValue::Integer(i) => ValueModel::Integer(i),
            ActionParameterValue::String(s) => ValueModel::String(s@),
        }
    }

    /// The variant each supported wire shape decodes to; the null shape
    /// and the structural shapes (key map, list) have no variant in this
    /// family and decode to absence.
    pub open spec fn spec_decode(w: WireValue) -> Option<ActionParameterValue> {
        match w {
            WireValue::Bool(b) => Some(ActionParameterValue::Bool(b)),
            WireValue::Int(i) => Some(ActionParameterValue::Integer(i)),
            WireValue::Float(t) => Some(ActionParameterValue::Number(t)),
            WireValue::Text(s) => Some(ActionParameterValue::String(s)),
            _ => None,
        }
    }

    /// Decodes a wire value into this minimal family: a scalar shape
    /// yields its variant; any other shape yields absence.
    pub fn decode(w: WireValue) -> (r: Option<ActionParameterValue>)
        ensures
            r == ActionParameterValue::spec_decode(w),
    {
        match w {
            WireValue::Bool(b) => Some(ActionParameterValue::Bool(b)),
            WireValue::Int(i) => Some(ActionParameterValue::Integer(i)),
            WireValue::Float(t) => Some(ActionParameterValue::Number(t)),
            WireValue::Text(s) => Some(ActionParameterValue::String(s)),
            _ => None,
        }
    }

    /// The wire shape each variant encodes to.
    pub open spec fn spec_encode(self) -> WireValue {
        match self {
            ActionParameterValue::Bool(b) => WireValue::Bool(b),
            ActionParameterValue::Number(t) => WireValue::Float(t),
            ActionParameterValue::Integer(i) => WireValue::Int(i),
            ActionParameterValue::String(s) => WireValue::Text(s),
        }
    }

    /// Renders this value back to its wire form.
    pub fn encode(self) -> (w: WireValue)
        ensures
            w == self.spec_encode(),
    {
        match self {
            ActionParameterValue::Bool(b) => WireValue::Bool(b),
            ActionParameterValue::Number(t) => WireValue::Float(t),
            ActionParameterValue::Integer(i) => WireValue::Int(i),
            ActionParameterValue::String(s) => WireValue::Text(s),
        }
    }
}

/// Law: in the minimal family too, decoding a supported wire shape and
/// encoding the result yields the original wire value; and a value that
/// encodes and decodes comes back unchanged.
pub proof fn lemma_minimal_round_trip(w: WireValue, v: ActionParameterValue)
    ensures
        ActionParameterValue::spec_decode(w) matches Some(d) ==> d.spec_encode() == w,
        ActionParameterValue::spec_decode(v.spec_encode()) == Some(v),
{
    match w {
        WireValue::Null => {},
        WireValue::Bool(_) => {},
        WireValue::Int(_) => {},
        WireValue::Float(_) => {},
        WireValue::Text(_) => {},
        WireValue::Dict(_) => {},
        WireValue::List(_) => {},
    }
    match v {
        ActionParameterValue::Bool(_) => {},
        ActionParameterValue::Number(_) => {},
        ActionParameterValue::Integer(_) => {},
        ActionParameterValue::String(_) => {},
    }
}

impl PartialEq for ActionParameterValue {
    /// Equality is structural: two values are equal exactly when their
    /// models are equal.
    fn eq(&self, other: &ActionParameterValue) -> (r: bool) {
        match (self, other) {
            (ActionParameterValue::Bool(x), ActionParameterValue::Bool(y)) => x == y,
            (ActionParameterValue::Number(x), ActionParameterValue::Number(y)) => *x == *y,
            (ActionParameterValue::Integer(x), ActionParameterValue::Integer(y)) => x == y,
            (ActionParameterValue::String(x), ActionParameterValue::String(y)) => *x == *y,
            _ => false,
        }
    }
}

impl vstd::std_specs::cmp::PartialEqSpecImpl for ActionParameterValue {
    open spec fn obeys_eq_spec() -> bool {
        true
    }

    open spec fn eq_spec(&self, other: &ActionParameterValue) -> bool {
        self.model() == other.model()
    }
}

/// The minimal, earlier parameter shape: only a key and a scalar value,
/// with no type hint and no metadata.
#[derive(Debug)]
pub struct SimpleActionParameter {
    /// The key naming the parameter.
    pub key: String,
    /// The scalar value of the parameter.
    pub value: ActionParameterValue,
}

impl SimpleActionParameter {
    /// The wire form of this record: a key map holding exactly the `key`
    /// and `value` entries.
    pub open spec fn spec_to_wire(self) -> WireModel {
        WireModel::Dict(
            seq![
                ("key"@, WireModel::Text(self.key@)),
                ("value"@, self.value.spec_encode().model()),
            ],
        )
    }

    /// Renders this record to its wire form.
    pub fn to_wire(self) -> (w: WireValue)
        ensures
            w.model() == self.spec_to_wire(),
    {
        proof {
            reveal_strlit("key");
            reveal_strlit("value");
        }
        let ghost g = self;
        let SimpleActionParameter { key, value } = self;
        let mut fields: Vec<(String, WireValue)> = Vec::new();
        fields.push((String::from_str("key"), WireValue::Text(key)));
        fields.push((String::from_str("value"), value.encode()));
        let w = WireValue::Dict(fields);
        proof {
            crate::wire::lemma_dict_model(fields@);
            assert(dict_model(fields@) =~= g.spec_to_wire()->Dict_0);
        }
        w
    }
}

impl PartialEq for SimpleActionParameter {
    /// Equality is structural: the keys agree and the value models agree.
    fn eq(&self, other: &SimpleActionParameter) -> (r: bool) {
        self.key == other.key && self.value == other.value
    }
}

impl vstd::std_specs::cmp::PartialEqSpecImpl for SimpleActionParameter {
    open spec fn obeys_eq_spec() -> bool {
        true
    }

    open spec fn eq_spec(&self, other: &SimpleActionParameter) -> bool {
        self.key@ == other.key@ && self.value.model() == other.value.model()
    }
}

} // verus!
