//! Late-bound calls on an automation object.
//!
//! Callers name an operation, pass loosely typed arguments and get back a
//! typed result or one error of a closed set. A call runs through four
//! stages: the name is resolved to a handle on the object, the arguments
//! are laid out as a parameter block, the object is invoked once, and the
//! value that comes back is decoded. The object itself, and the host
//! services around it, are reached through the traits in [`target`].

pub mod codec;
pub mod driver;
pub mod error;
pub mod facade;
pub mod operation;
pub mod params;
pub mod target;
pub mod value;

pub use crate::codec::{
    decode, decode_bool, decode_double, decode_i32, decode_i64, decode_string, decode_unit,
    encode_bool, encode_double, encode_i32, encode_i64, encode_str, encode_string, encode_unit,
};
pub use crate::driver::{invoke, invoke0, plan, resolution, resolve, transported};
pub use crate::error::{DmError, DmResult};
pub use crate::facade::{client_size, served, DmSoft, OBJECT_IDENTIFIER};
pub use crate::operation::{settle, Operation, StatusRule};
pub use crate::params::ParameterBlock;
pub use crate::target::{
    CallKind, DispatchId, Environment, Invocation, Rect, Reply, Target,
};
pub use crate::value::{Double, Kind, TaggedValue};
