//! Conversion between native values and tagged values.

use crate::error::{DmError, DmResult};
use crate::value::{Double, Kind, Tagged, TaggedValue};
use vstd::prelude::*;

verus! {

/// The error for a value of kind `actual` where `expected` was asked for.
pub open spec fn mismatch(expected: Kind, actual: Kind) -> DmError {
    DmError::TypeMismatch { expected, actual }
}

/// What decoding `value` as `expected` yields: the value itself when it has
/// that kind, and a type mismatch otherwise.
pub open spec fn decoded(value: Tagged, expected: Kind) -> Result<Tagged, DmError> {
    if value.kind() == expected {
        Ok(value)
    } else {
        Err(mismatch(expected, value.kind()))
    }
}

/// What decoding `value` as a 32-bit integer yields.
pub open spec fn decoded_i32(value: Tagged) -> Result<i32, DmError> {
    match value {
        Tagged::Integer32(v) => Ok(v),
        _ => Err(mismatch(Kind::Integer32, value.kind())),
    }
}

/// What decoding `value` as a 64-bit integer yields.
pub open spec fn decoded_i64(value: Tagged) -> Result<i64, DmError> {
    match value {
        Tagged::Integer64(v) => Ok(v),
        _ => Err(mismatch(Kind::Integer64, value.kind())),
    }
}

/// What decoding `value` as a double yields.
pub open spec fn decoded_double(value: Tagged) -> Result<Double, DmError> {
    match value {
        Tagged::Float64(v) => Ok(v),
        _ => Err(mismatch(Kind::Float64, value.kind())),
    }
}

/// What decoding `value` as a boolean yields.
pub open spec fn decoded_bool(value: Tagged) -> Result<bool, DmError> {
    match value {
        Tagged::Boolean(v) => Ok(v),
        _ => Err(mismatch(Kind::Boolean, value.kind())),
    }
}

/// What decoding `value` as a string yields: its characters.
pub open spec fn decoded_string(value: Tagged) -> Result<Seq<char>, DmError> {
    match value {
        Tagged::String(v) => Ok(v),
        _ => Err(mismatch(Kind::String, value.kind())),
    }
}

/// What decoding `value` as the unit value yields.
pub open spec fn decoded_unit(value: Tagged) -> Result<(), DmError> {
    match value {
        Tagged::Empty => Ok(()),
        _ => Err(mismatch(Kind::Empty, value.kind())),
    }
}

/// Tags a 32-bit integer.
pub fn encode_i32(v: i32) -> (t: TaggedValue)
    ensures
        t@ == Tagged::Integer32(v),
{
    TaggedValue::Integer32(v)
}

/// Tags a 64-bit integer.
pub fn encode_i64(v: i64) -> (t: TaggedValue)
    ensures
        t@ == Tagged::Integer64(v),
{
    TaggedValue::Integer64(v)
}

/// Tags a double.
pub fn encode_double(v: Double) -> (t: TaggedValue)
    ensures
        t@ == Tagged::Float64(v),
{
    TaggedValue::Float64(v)
}

/// Tags a boolean.
pub fn encode_bool(v: bool) -> (t: TaggedValue)
    ensures
        t@ == Tagged::Boolean(v),
{
    TaggedValue::Boolean(v)
}

/// Tags a copy of a string slice.
pub fn encode_str(v: &str) -> (t: TaggedValue)
    ensures
        t@ == Tagged::String(v@),
{
    TaggedValue::String(v.to_owned())
}

/// Tags a string.
pub fn encode_string(v: String) -> (t: TaggedValue)
    ensures
        t@ == Tagged::String(v@),
{
    TaggedValue::String(v)
}

/// Tags the unit value.
pub fn encode_unit() -> (t: TaggedValue)
    ensures
        t@ == Tagged::Empty,
{
    TaggedValue::Empty
}

/// Checks that `value` has the kind `expected` and hands it back; a value
/// of another kind is an error and is never replaced by a default.
pub fn decode(value: TaggedValue, expected: Kind) -> (r: DmResult<TaggedValue>)
    ensures
        match r {
            Ok(v) => decoded(value@, expected) == Ok::<Tagged, DmError>(v@),
            Err(e) => decoded(value@, expected) == Err::<Tagged, DmError>(e),
        },
{
    let actual = value.kind();
    if actual == expected {
        Ok(value)
    } else {
        Err(DmError::TypeMismatch { expected, actual })
    }
}

/// The 32-bit integer that `value` holds.
pub fn decode_i32(value: TaggedValue) -> (r: DmResult<i32>)
    ensures
        r == decoded_i32(value@),
{
    match value {
        TaggedValue::Integer32(v) => Ok(v),
        other => Err(DmError::TypeMismatch { expected: Kind::Integer32, actual: other.kind() }),
    }
}

/// The 64-bit integer that `value` holds.
pub fn decode_i64(value: TaggedValue) -> (r: DmResult<i64>)
    ensures
        r == decoded_i64(value@),
{
    match value {
        TaggedValue::Integer64(v) => Ok(v),
        other => Err(DmError::TypeMismatch { expected: Kind::Integer64, actual: other.kind() }),
    }
}

/// The double that `value` holds.
pub fn decode_double(value: TaggedValue) -> (r: DmResult<Double>)
    ensures
        r == decoded_double(value@),
{
    match value {
        TaggedValue::Float64(v) => Ok(v),
        other => Err(DmError::TypeMismatch { expected: Kind::Float64, actual: other.kind() }),
    }
}

/// The boolean that `value` holds.
pub fn decode_bool(value: TaggedValue) -> (r: DmResult<bool>)
    ensures
        r == decoded_bool(value@),
{
    match value {
        TaggedValue::Boolean(v) => Ok(v),
        other => Err(DmError::TypeMismatch { expected: Kind::Boolean, actual: other.kind() }),
    }
}

/// The string that `value` holds, as an owned string of its own.
pub fn decode_string(value: TaggedValue) -> (r: DmResult<String>)
    ensures
        match r {
            Ok(s) => decoded_string(value@) == Ok::<Seq<char>, DmError>(s@),
            Err(e) => decoded_string(value@) == Err::<Seq<char>, DmError>(e),
        },
{
    match value {
        TaggedValue::String(v) => Ok(v),
        other => Err(DmError::TypeMismatch { expected: Kind::String, actual: other.kind() }),
    }
}

/// Checks that `value` is empty.
pub fn decode_unit(value: TaggedValue) -> (r: DmResult<()>)
    ensures
        r == decoded_unit(value@),
{
    match value {
        TaggedValue::Empty => Ok(()),
        other => Err(DmError::TypeMismatch { expected: Kind::Empty, actual: other.kind() }),
    }
}

/// Decoding what was encoded, as the kind it was encoded with, gives the
/// value back: for integers of both widths, doubles, booleans, strings and
/// the unit value.
pub proof fn lemma_decode_inverts_encode(i: i32, l: i64, d: Double, b: bool, s: Seq<char>)
    ensures
        decoded_i32(Tagged::Integer32(i)) == Ok::<i32, DmError>(i),
        decoded_i64(Tagged::Integer64(l)) == Ok::<i64, DmError>(l),
        decoded_double(Tagged::Float64(d)) == Ok::<Double, DmError>(d),
        decoded_bool(Tagged::Boolean(b)) == Ok::<bool, DmError>(b),
        decoded_string(Tagged::String(s)) == Ok::<Seq<char>, DmError>(s),
        decoded_unit(Tagged::Empty) == Ok::<(), DmError>(()),
{
}

/// A value decoded as its own kind is handed back unchanged.
pub proof fn lemma_decode_own_kind(value: Tagged)
    ensures
        decoded(value, value.kind()) == Ok::<Tagged, DmError>(value),
{
}

/// Decoding a value as any kind but its own fails with a type mismatch that
/// names both kinds, whichever decoder is used.
pub proof fn lemma_decode_other_kind(value: Tagged, expected: Kind)
    requires
        expected != value.kind(),
    ensures
        decoded(value, expected) == Err::<Tagged, DmError>(mismatch(expected, value.kind())),
        expected == Kind::Integer32 ==> decoded_i32(value) == Err::<i32, DmError>(
            mismatch(expected, value.kind()),
        ),
        expected == Kind::Integer64 ==> decoded_i64(value) == Err::<i64, DmError>(
            mismatch(expected, value.kind()),
        ),
        expected == Kind::Float64 ==> decoded_double(value) == Err::<Double, DmError>(
            mismatch(expected, value.kind()),
        ),
        expected == Kind::Boolean ==> decoded_bool(value) == Err::<bool, DmError>(
            mismatch(expected, value.kind()),
        ),
        expected == Kind::String ==> decoded_string(value) == Err::<Seq<char>, DmError>(
            mismatch(expected, value.kind()),
        ),
        expected == Kind::Empty ==> decoded_unit(value) == Err::<(), DmError>(
            mismatch(expected, value.kind()),
        ),
{
}

} // verus!
