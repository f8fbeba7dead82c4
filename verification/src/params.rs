//! The parameter block: the arguments of one call as the target receives
//! them.

use crate::error::{DmError, DmResult};
use crate::value::{models, Tagged, TaggedValue};
use vstd::prelude::*;

verus! {

/// How a list of arguments is laid out for a call. A call without arguments
/// has no argument array at all, which is not the same as an array that is
/// present and empty. A call with arguments has an array that holds them in
/// reverse: its first slot is the last argument.
pub open spec fn layout(arguments: Seq<Tagged>) -> Option<Seq<Tagged>> {
    if arguments.len() == 0 {
        None
    } else {
        Some(arguments.reverse())
    }
}

/// The number of slots of a layout.
pub open spec fn slots_of(array: Option<Seq<Tagged>>) -> nat {
    match array {
        None => 0,
        Some(slots) => slots.len(),
    }
}

/// The arguments of one call, in the order of the wire, with their count.
///
/// A block is built just before a call and dropped after it. Its view is
/// the argument array, `None` where the block has none.
#[derive(Debug, PartialEq, Eq)]
pub struct ParameterBlock {
    array: Option<Vec<TaggedValue>>,
    count: u32,
}

impl View for ParameterBlock {
    type V = Option<Seq<Tagged>>;

    closed spec fn view(&self) -> Option<Seq<Tagged>> {
        match self.array {
            None => None,
            Some(slots) => Some(models(slots@)),
        }
    }
}

impl ParameterBlock {
    /// The count is the length of the array, and an array that is present
    /// holds at least one value.
    #[verifier::type_invariant]
    spec fn well_formed(&self) -> bool {
        match self.array {
            None => self.count == 0,
            Some(slots) => slots@.len() == self.count && self.count > 0,
        }
    }

    /// The block of a call without arguments: no array, count 0.
    pub fn empty() -> (block: ParameterBlock)
        ensures
            block@ == layout(Seq::<Tagged>::empty()),
            block@ is None,
    {
        ParameterBlock { array: None, count: 0 }
    }

    /// Lays out `arguments`, given in the order of the call. More arguments
    /// than a 32-bit count can hold are refused.
    pub fn build(arguments: Vec<TaggedValue>) -> (r: DmResult<ParameterBlock>)
        ensures
            arguments@.len() <= u32::MAX ==> (r matches Ok(block) && block@ == layout(
                models(arguments@),
            )),
            arguments@.len() > u32::MAX ==> r == Err::<ParameterBlock, DmError>(
                DmError::EncodingFailed,
            ),
    {
        let total = arguments.len();
        if total > u32::MAX as usize {
            return Err(DmError::EncodingFailed);
        }
        if total == 0 {
            return Ok(ParameterBlock::empty());
        }
        let ghost given = arguments@;
        let mut rest = arguments;
        let mut slots: Vec<TaggedValue> = Vec::new();
        while rest.len() > 0
            invariant
                rest@.len() + slots@.len() == given.len(),
                rest@ == given.subrange(0, rest@.len() as int),
                forall|i: int| 0 <= i < slots@.len() ==> slots@[i] == given[given.len() - 1 - i],
            decreases rest@.len(),
        {
            let last = rest.pop();
            match last {
                Some(value) => {
                    slots.push(value);
                },
                None => {},
            }
        }
        assert(models(slots@) =~= models(given).reverse());
        Ok(ParameterBlock { array: Some(slots), count: total as u32 })
    }

    /// The number of slots.
    pub fn count(&self) -> (n: u32)
        ensures
            n == slots_of(self@),
    {
        proof {
            use_type_invariant(self);
        }
        self.count
    }

    /// Whether the block has an argument array.
    pub fn has_array(&self) -> (present: bool)
        ensures
            present == (self@ is Some),
    {
        self.array.is_some()
    }

    /// The value in slot `position` of the array, counted from 0 in the
    /// order of the wire.
    pub fn slot(&self, position: usize) -> (r: Option<&TaggedValue>)
        ensures
            position < slots_of(self@) ==> (r matches Some(value) && value@
                == self@->0[position as int]),
            position >= slots_of(self@) ==> r is None,
    {
        match &self.array {
            None => None,
            Some(slots) => {
                if position < slots.len() {
                    Some(&slots[position])
                } else {
                    None
                }
            },
        }
    }

    /// The argument with the given index in the order of the call.
    pub fn argument(&self, index: usize) -> (r: Option<&TaggedValue>)
        ensures
            index < slots_of(self@) ==> (r matches Some(value) && value@ == self@->0[slots_of(
                self@,
            ) - 1 - index]),
            index >= slots_of(self@) ==> r is None,
    {
        match &self.array {
            None => None,
            Some(slots) => {
                let n = slots.len();
                if index < n {
                    Some(&slots[n - 1 - index])
                } else {
                    None
                }
            },
        }
    }
}

/// The array of a call with arguments holds them all, last argument first:
/// slot `i` is argument `n - 1 - i`.
pub proof fn lemma_layout_reverses(arguments: Seq<Tagged>)
    requires
        arguments.len() > 0,
    ensures
        layout(arguments) matches Some(slots) && slots.len() == arguments.len() && slots[0]
            == arguments.last() && forall|i: int|
            0 <= i < arguments.len() ==> #[trigger] slots[i] == arguments[arguments.len() - 1 - i],
{
}

/// A call without arguments has no array and the count 0. A call with the
/// one argument `Empty` has an array of one slot: the two differ.
pub proof fn lemma_no_arguments_is_no_array()
    ensures
        layout(Seq::<Tagged>::empty()) is None,
        slots_of(layout(Seq::<Tagged>::empty())) == 0,
        layout(seq![Tagged::Empty]) == Some(seq![Tagged::Empty]),
        slots_of(layout(seq![Tagged::Empty])) == 1,
        layout(Seq::<Tagged>::empty()) != layout(seq![Tagged::Empty]),
{
    assert(seq![Tagged::Empty].reverse() =~= seq![Tagged::Empty]);
}

} // verus!
