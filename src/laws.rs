use vstd::prelude::*;

use crate::error::CounterError;
use crate::model::{
    close_outcome, closed_model, create_outcome, created_model, read_model, update_model, Payer,
    SlotView, UpdateOp,
};

verus! {

/// On a live slot whose count is below `u8::MAX`, incrementing succeeds and
/// the count becomes one more; nothing else of the slot changes.
pub proof fn increment_below_max(s: SlotView, count: u8)
    requires
        s.record == Some(count),
        count < u8::MAX,
    ensures
        update_model(s, UpdateOp::Increment) == (
            SlotView { record: Some((count + 1) as u8), ..s },
            Ok::<(), CounterError>(()),
        ),
{
}

/// On a live slot whose count is `u8::MAX`, incrementing fails with
/// `ArithmeticOverflow` and the slot, its count included, stays as it was.
pub proof fn increment_at_max(s: SlotView)
    requires
        s.record == Some(u8::MAX),
    ensures
        update_model(s, UpdateOp::Increment) == (s, Err::<(), CounterError>(
            CounterError::ArithmeticOverflow,
        )),
        update_model(s, UpdateOp::Increment).0.record == Some(u8::MAX),
{
}

/// On a live slot whose count is above zero, decrementing succeeds and the
/// count becomes one less; nothing else of the slot changes.
pub proof fn decrement_above_zero(s: SlotView, count: u8)
    requires
        s.record == Some(count),
        count > 0,
    ensures
        update_model(s, UpdateOp::Decrement) == (
            SlotView { record: Some((count - 1) as u8), ..s },
            Ok::<(), CounterError>(()),
        ),
{
}

/// On a live slot whose count is zero, decrementing fails with
/// `ArithmeticUnderflow` and the count stays zero.
pub proof fn decrement_at_zero(s: SlotView)
    requires
        s.record == Some(0u8),
    ensures
        update_model(s, UpdateOp::Decrement) == (s, Err::<(), CounterError>(
            CounterError::ArithmeticUnderflow,
        )),
        update_model(s, UpdateOp::Decrement).0.record == Some(0u8),
{
}

/// On a live slot, setting any value succeeds and the count becomes that
/// value, whatever it was before.
pub proof fn set_any_value(s: SlotView, value: u8)
    requires
        s.record is Some,
    ensures
        update_model(s, UpdateOp::SetValue(value)) == (
            SlotView { record: Some(value), ..s },
            Ok::<(), CounterError>(()),
        ),
        update_model(s, UpdateOp::SetValue(value)).0.record == Some(value),
{
}

/// A slot that was just created reads as a count of zero.
pub proof fn created_reads_zero(address: u64, payer: Payer, cost: u64)
    requires
        create_outcome(payer, cost) is Ok,
    ensures
        read_model(created_model(address, payer, cost)) == Ok::<u8, CounterError>(0),
{
}

/// Reading depends on the slot alone: two reads of a slot that nothing
/// changed in between give the same result.
pub proof fn read_is_stable(first: SlotView, second: SlotView)
    requires
        first == second,
    ensures
        read_model(first) == read_model(second),
{
}

/// Once a slot is closed, every update, every read and every further close
/// fails with `SlotNotFound` and leaves the slot closed.
pub proof fn closed_slot_not_found(s: SlotView, op: UpdateOp, payer: Payer)
    ensures
        update_model(closed_model(s), op) == (closed_model(s), Err::<(), CounterError>(
            CounterError::SlotNotFound,
        )),
        close_outcome(closed_model(s), payer) == Err::<(), CounterError>(
            CounterError::SlotNotFound,
        ),
        read_model(closed_model(s)) == Err::<u8, CounterError>(CounterError::SlotNotFound),
{
}

} // verus!
