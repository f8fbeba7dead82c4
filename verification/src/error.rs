//! The errors of the library: one closed set for every stage of a call.

use crate::value::Kind;
use vstd::prelude::*;

verus! {

/// Why a call did not yield its result.
#[derive(Debug, PartialEq, Eq)]
pub enum DmError {
    /// The target exposes no operation of this name.
    ResolutionFailed { name: String },
    /// A value cannot be put into the form of the wire, or taken out of
    /// it: the arguments are too many to lay out, or what came back has a
    /// kind that the library does not carry.
    EncodingFailed,
    /// A value has another kind than the one asked for.
    TypeMismatch { expected: Kind, actual: Kind },
    /// The way to the object failed, while asking for a handle or during
    /// the call; `code` is the status of the transport.
    CallFailed { code: i32 },
    /// The call went through and the object answered with a status that
    /// the operation counts as a failure.
    OperationReported(i32),
    /// A service outside the dispatch path failed with this status.
    EnvironmentError { code: i32 },
}

/// The result of every fallible function of the library.
pub type DmResult<T> = Result<T, DmError>;

impl From<i32> for DmError {
    /// A status that an operation counts as a failure.
    fn from(code: i32) -> (e: DmError) {
        DmError::OperationReported(code)
    }
}

impl vstd::std_specs::convert::FromSpecImpl<i32> for DmError {
    open spec fn obeys_from_spec() -> bool {
        true
    }

    open spec fn from_spec(code: i32) -> DmError {
        DmError::OperationReported(code)
    }
}

} // verus!
