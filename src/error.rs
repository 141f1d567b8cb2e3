use vstd::prelude::*;

verus! {

/// The named failures of the counter's instructions. Each one leaves every
/// account it was handed as it was.
#[derive(Clone, Copy, Debug, PartialEq, Eq, Structural)]
pub enum CounterError {
    /// `increment` on a count that is already `u8::MAX`.
    ArithmeticOverflow,
    /// `decrement` on a count of zero.
    ArithmeticUnderflow,
    /// The slot that the handle names is not live: closed, or never created.
    SlotNotFound,
    /// The payer did not sign, or is not the slot's recorded owner.
    Unauthorized,
    /// The payer cannot fund the slot's allocation.
    InsufficientResources,
}

} // verus!
