//! Data types of the VDA 5050 interchange standard for AGV fleet
//! communication, centred on the polymorphic parameter-value model: a
//! closed variant type over the wire shapes (null, boolean, integer,
//! float, string, object, array), its total decoder and encoder, its
//! scalar accessors, and the parameter and action records that embed it.
//!
//! Every operation carries a contract over the mathematical model of its
//! type, and the stated laws — round-trip stability of decode and encode,
//! suppression of absent optional fields, structural equality — are
//! proved, not only tested.

use vstd::prelude::*;

pub mod action;
pub mod common;
pub mod text;
pub mod wire;

pub use action::Action;
pub use action::ActionParameterValue;
pub use action::BlockingType;
pub use action::SimpleActionParameter;
pub use common::ActionParameter;
pub use common::ParameterValue;
pub use common::ValueDataType;
pub use common::ValueModel;
pub use wire::WireModel;
pub use wire::WireValue;

verus! {

/// Header identifier of a message, incremented per message by the sender.
pub type HeaderId = u32;

} // verus!
