//! The values exchanged with an automation object.

use vstd::prelude::*;

verus! {

/// The kinds of value that an argument or a result can have.
#[derive(Clone, Copy, Debug, PartialEq, Eq, Structural)]
pub enum Kind {
    Integer32,
    Integer64,
    Float64,
    Boolean,
    String,
    Empty,
}

/// A double-precision number, held as its IEEE 754 bit pattern.
///
/// The library carries such numbers and never computes with them, so the
/// bit pattern is all it needs: two values are the same exactly when their
/// bits are.
#[derive(Clone, Copy, Debug, PartialEq, Eq, Structural)]
pub struct Double {
    pub bits: u64,
}

impl Double {
    /// The number with the given bit pattern.
    pub fn from_bits(bits: u64) -> (d: Double)
        ensures
            d.bits == bits,
    {
        Double { bits }
    }

    /// The bit pattern of the number.
    pub fn to_bits(self) -> (bits: u64)
        ensures
            bits == self.bits,
    {
        self.bits
    }
}

/// One argument or result: a value together with the kind it has.
#[derive(Debug, PartialEq, Eq)]
pub enum TaggedValue {
    Integer32(i32),
    Integer64(i64),
    Float64(Double),
    Boolean(bool),
    String(String),
    Empty,
}

/// The mathematical content of a [`TaggedValue`].
pub ghost enum Tagged {
    Integer32(i32),
    Integer64(i64),
    Float64(Double),
    Boolean(bool),
    String(Seq<char>),
    Empty,
}

impl Tagged {
    /// The kind of the value.
    pub open spec fn kind(self) -> Kind {
        match self {
            Tagged::Integer32(_) => Kind::Integer32,
            Tagged::Integer64(_) => Kind::Integer64,
            Tagged::Float64(_) => Kind::Float64,
            Tagged::Boolean(_) => Kind::Boolean,
            Tagged::String(_) => Kind::String,
            Tagged::Empty => Kind::Empty,
        }
    }
}

impl View for TaggedValue {
    type V = Tagged;

    open spec fn view(&self) -> Tagged {
        match *self {
            TaggedValue::Integer32(v) => Tagged::Integer32(v),
            TaggedValue::Integer64(v) => Tagged::Integer64(v),
            TaggedValue::Float64(v) => Tagged::Float64(v),
            TaggedValue::Boolean(v) => Tagged::Boolean(v),
            TaggedValue::String(v) => Tagged::String(v@),
            TaggedValue::Empty => Tagged::Empty,
        }
    }
}

/// The contents of a list of values, in the same order.
pub open spec fn models(values: Seq<TaggedValue>) -> Seq<Tagged> {
    Seq::new(values.len(), |i: int| values[i]@)
}

impl Clone for TaggedValue {
    /// A copy that holds the same value of the same kind.
    fn clone(&self) -> (copy: TaggedValue)
        ensures
            copy@ == self@,
    {
        match self {
            TaggedValue::Integer32(v) => TaggedValue::Integer32(*v),
            TaggedValue::Integer64(v) => TaggedValue::Integer64(*v),
            TaggedValue::Float64(v) => TaggedValue::Float64(*v),
            TaggedValue::Boolean(v) => TaggedValue::Boolean(*v),
            TaggedValue::String(v) => TaggedValue::String(v.clone()),
            TaggedValue::Empty => TaggedValue::Empty,
        }
    }
}

impl TaggedValue {
    /// The kind of the value that is held.
    pub fn kind(&self) -> (k: Kind)
        ensures
            k == self@.kind(),
    {
        match self {
            TaggedValue::Integer32(_) => Kind::Integer32,
            TaggedValue::Integer64(_) => Kind::Integer64,
            TaggedValue::Float64(_) => Kind::Float64,
            TaggedValue::Boolean(_) => Kind::Boolean,
            TaggedValue::String(_) => Kind::String,
            TaggedValue::Empty => Kind::Empty,
        }
    }
}

} // verus!
