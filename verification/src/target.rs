//! What the library needs from the outside: the automation object itself
//! and the host services around it.
//!
//! Nothing is assumed of an implementation. Every function that calls one
//! is verified for whatever answer comes back, and says in its contract
//! what it asked and what it made of the answer.

use crate::params::ParameterBlock;
use crate::value::TaggedValue;
use vstd::prelude::*;

verus! {

/// The handle of one named operation on one target. Another target may
/// give the same name another handle, so a handle is asked for again for
/// each target and never kept beyond it.
pub type DispatchId = i32;

/// What an invocation asks of the operation it names.
#[derive(Clone, Copy, Debug, PartialEq, Eq, Structural)]
pub enum CallKind {
    Method,
    PropertyGet,
    PropertyPut,
}

/// One invocation as the target receives it: which operation, what is
/// asked of it, and the arguments.
#[derive(Debug, PartialEq, Eq)]
pub struct Invocation {
    pub id: DispatchId,
    pub kind: CallKind,
    pub block: ParameterBlock,
}

impl Invocation {
    /// The invocation of operation `id` as a method with the arguments of
    /// `block`.
    pub fn method(id: DispatchId, block: ParameterBlock) -> (invocation: Invocation)
        ensures
            invocation.id == id,
            invocation.kind == CallKind::Method,
            invocation.block == block,
    {
        Invocation { id, kind: CallKind::Method, block }
    }
}

/// What an invocation brought back.
#[derive(Debug, PartialEq, Eq)]
pub enum Reply {
    /// A value of one of the kinds that the library carries.
    Value(TaggedValue),
    /// The null value, which the library takes for the empty one.
    Null,
    /// A value of a kind that the library does not carry.
    Unsupported,
}

impl Clone for Reply {
    /// A copy that holds the same value.
    fn clone(&self) -> (copy: Reply)
        ensures
            match (*self, copy) {
                (Reply::Value(a), Reply::Value(b)) => a@ == b@,
                (Reply::Null, Reply::Null) => true,
                (Reply::Unsupported, Reply::Unsupported) => true,
                _ => false,
            },
    {
        match self {
            Reply::Value(value) => Reply::Value(value.clone()),
            Reply::Null => Reply::Null,
            Reply::Unsupported => Reply::Unsupported,
        }
    }
}

/// One instance of the automation object.
///
/// The calls block until the object has answered. An object need not be
/// safe to call from several threads at once: share one between threads
/// only behind a lock.
pub trait Target {
    /// Asks the object for the handle of the operation called `name`.
    /// `Ok(None)` says that the object has no operation of that name,
    /// `Err` holds the status with which the query itself failed.
    fn id_of_name(&self, name: &str) -> Result<Option<DispatchId>, i32>;

    /// Performs one invocation and waits for it. `Ok` holds what the
    /// operation returned, `Err` the status with which the transport
    /// failed.
    fn invoke(&self, invocation: &Invocation) -> Result<Reply, i32>;
}

/// The edges of a rectangle, in pixels.
#[derive(Clone, Copy, Debug, PartialEq, Eq, Structural)]
pub struct Rect {
    pub left: i32,
    pub top: i32,
    pub right: i32,
    pub bottom: i32,
}

/// The host services that are reached directly, not through an automation
/// object.
pub trait Environment {
    /// The automation objects that this environment hands out.
    type Object: Target;

    /// Sets up the automation subsystem for the calling thread, if that is
    /// still to do, and hands out the object registered under
    /// `identifier`. `Err` holds the status of the step that failed.
    fn acquire(&self, identifier: &str) -> Result<Self::Object, i32>;

    /// The client area of the window `window`, in its own coordinates.
    /// `Err` holds the status with which the query failed.
    fn client_rect(&self, window: i64) -> Result<Rect, i32>;
}

} // verus!
