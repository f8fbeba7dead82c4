//! The name resolver and the call driver.

use crate::error::{DmError, DmResult};
use crate::params::{layout, ParameterBlock};
use crate::target::{CallKind, DispatchId, Invocation, Reply, Target};
use crate::value::{models, Tagged, TaggedValue};
use vstd::prelude::*;

verus! {

/// Whether `r` is what resolving `name` yields once the target has given
/// `answer`: the handle; `ResolutionFailed` with the name where the target
/// knows no such operation; `CallFailed` with the status where the query
/// itself failed.
pub open spec fn resolves_to(
    name: Seq<char>,
    answer: Result<Option<DispatchId>, i32>,
    r: DmResult<DispatchId>,
) -> bool {
    match answer {
        Ok(Some(id)) => r == Ok::<DispatchId, DmError>(id),
        Ok(None) => r matches Err(DmError::ResolutionFailed { name: unknown }) && unknown@ == name,
        Err(code) => r == Err::<DispatchId, DmError>(DmError::CallFailed { code }),
    }
}

/// Whether `r` is what comes of asking `target` for the handle of `name`:
/// the target was asked for that name, and `r` is what [`resolves_to`]
/// makes of its answer.
pub open spec fn resolved<T: Target>(target: &T, name: Seq<char>, r: DmResult<DispatchId>) -> bool {
    exists|asked: &str, answer: Result<Option<DispatchId>, i32>|
        asked@ == name && #[trigger] call_ensures(T::id_of_name, (target, asked), answer)
            && resolves_to(name, answer, r)
}

/// What a call yields once the transport has given `answer`: the returned
/// value, the empty value for null, `EncodingFailed` for a value of a kind
/// that the library does not carry, and `CallFailed` with the status where
/// the transport failed.
pub open spec fn carried(answer: Result<Reply, i32>) -> DmResult<TaggedValue> {
    match answer {
        Ok(Reply::Value(value)) => Ok(value),
        Ok(Reply::Null) => Ok(TaggedValue::Empty),
        Ok(Reply::Unsupported) => Err(DmError::EncodingFailed),
        Err(code) => Err(DmError::CallFailed { code }),
    }
}

/// Whether `r` is what comes of calling operation `id` of `target` with
/// `arguments`: the target received one invocation of that operation as a
/// method, its block the layout of the arguments, and `r` is what
/// [`carried`] makes of its answer.
pub open spec fn invoked<T: Target>(
    target: &T,
    id: DispatchId,
    arguments: Seq<Tagged>,
    r: DmResult<TaggedValue>,
) -> bool {
    exists|sent: Invocation, answer: Result<Reply, i32>|
        sent.id == id && sent.kind == CallKind::Method && sent.block@ == layout(arguments)
            && #[trigger] call_ensures(T::invoke, (target, &sent), answer) && r == carried(answer)
}

/// What resolving `name` yields once the target has answered. No handle is
/// made up for an unknown name.
pub fn resolution(name: &str, answer: Result<Option<DispatchId>, i32>) -> (r: DmResult<DispatchId>)
    ensures
        resolves_to(name@, answer, r),
{
    match answer {
        Ok(Some(id)) => Ok(id),
        Ok(None) => Err(DmError::ResolutionFailed { name: name.to_owned() }),
        Err(code) => Err(DmError::CallFailed { code }),
    }
}

/// Asks `target` for the handle of the operation called `name`. The target
/// is asked once, and nothing is remembered of its answer.
pub fn resolve<T: Target>(target: &T, name: &str) -> (r: DmResult<DispatchId>)
    ensures
        resolved(target, name@, r),
{
    let answer = target.id_of_name(name);
    assert(call_ensures(T::id_of_name, (target, name), answer));
    resolution(name, answer)
}

/// What a call yields once the transport has answered.
pub fn transported(answer: Result<Reply, i32>) -> (r: DmResult<TaggedValue>)
    ensures
        r == carried(answer),
{
    match answer {
        Ok(Reply::Value(value)) => Ok(value),
        Ok(Reply::Null) => Ok(TaggedValue::Empty),
        Ok(Reply::Unsupported) => Err(DmError::EncodingFailed),
        Err(code) => Err(DmError::CallFailed { code }),
    }
}

/// The invocation that calls operation `id` as a method with `arguments`,
/// given in the order of the call: the block holds them in the order of
/// the wire, and no array where there are none. More arguments than a
/// 32-bit count can hold are refused.
pub fn plan(id: DispatchId, arguments: Vec<TaggedValue>) -> (r: DmResult<Invocation>)
    ensures
        arguments@.len() <= u32::MAX ==> (r matches Ok(invocation) && invocation.id == id
            && invocation.kind == CallKind::Method && invocation.block@ == layout(
            models(arguments@),
        )),
        arguments@.len() > u32::MAX ==> r == Err::<Invocation, DmError>(DmError::EncodingFailed),
{
    let block = ParameterBlock::build(arguments)?;
    Ok(Invocation::method(id, block))
}

/// Calls operation `id` of `target` as a method with `arguments`, given in
/// the order of the call. The target is called once, with the invocation
/// of [`plan`], and is not called at all where that is refused.
pub fn invoke<T: Target>(target: &T, id: DispatchId, arguments: Vec<TaggedValue>) -> (r: DmResult<
    TaggedValue,
>)
    ensures
        arguments@.len() > u32::MAX ==> r == Err::<TaggedValue, DmError>(DmError::EncodingFailed),
        arguments@.len() <= u32::MAX ==> invoked(target, id, models(arguments@), r),
{
    let invocation = plan(id, arguments)?;
    let answer = target.invoke(&invocation);
    assert(call_ensures(T::invoke, (target, &invocation), answer));
    transported(answer)
}

/// Calls operation `id` of `target` as a method without arguments: the
/// invocation carries no argument array.
pub fn invoke0<T: Target>(target: &T, id: DispatchId) -> (r: DmResult<TaggedValue>)
    ensures
        invoked(target, id, Seq::<Tagged>::empty(), r),
{
    let arguments: Vec<TaggedValue> = Vec::new();
    assert(models(arguments@) =~= Seq::<Tagged>::empty());
    invoke(target, id, arguments)
}

} // verus!
