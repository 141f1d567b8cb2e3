use vstd::prelude::*;

use crate::error::CounterError;

verus! {

/// Bytes that the hosting runtime puts before an account's data to tell its
/// type; their contents mean nothing here.
pub const DISCRIMINATOR_LEN: usize = 8;

/// Bytes of the record itself: the one `u8` count.
pub const INIT_SPACE: usize = 1;

/// The allocation requested for a counter slot.
pub const SLOT_SPACE: usize = DISCRIMINATOR_LEN + INIT_SPACE;

/// A signer that pays for, and is refunded by, a slot. The runtime fills in
/// `is_signer` after checking the transaction's signatures.
#[derive(Clone, Copy, Debug, PartialEq, Eq, Structural)]
pub struct Payer {
    pub key: u64,
    pub is_signer: bool,
    pub lamports: u64,
}

/// What a slot is: where it lives, who paid for it, what it holds in reserve,
/// how many bytes it has, and its count while it is live (`None` once closed).
pub struct SlotView {
    pub address: u64,
    pub owner: u64,
    pub lamports: u64,
    pub space: nat,
    pub record: Option<u8>,
}

/// The in-place updates of a live counter.
#[derive(Clone, Copy, Debug, PartialEq, Eq, Structural)]
pub enum UpdateOp {
    Increment,
    Decrement,
    SetValue(u8),
}

/// The new count that `op` makes of `count`, or the failure it meets.
pub open spec fn step(op: UpdateOp, count: u8) -> Result<u8, CounterError> {
    match op {
        UpdateOp::Increment => if count == u8::MAX {
            Err(CounterError::ArithmeticOverflow)
        } else {
            Ok((count + 1) as u8)
        },
        UpdateOp::Decrement => if count == 0 {
            Err(CounterError::ArithmeticUnderflow)
        } else {
            Ok((count - 1) as u8)
        },
        UpdateOp::SetValue(value) => Ok(value),
    }
}

/// The slot after `op`, and the outcome: a slot that is not live, or a
/// failing step, leaves the slot as it was.
pub open spec fn update_model(s: SlotView, op: UpdateOp) -> (SlotView, Result<(), CounterError>) {
    match s.record {
        None => (s, Err(CounterError::SlotNotFound)),
        Some(count) => match step(op, count) {
            Ok(next) => (SlotView { record: Some(next), ..s }, Ok(())),
            Err(e) => (s, Err(e)),
        },
    }
}

/// What reading a slot's count gives: the count while it is live.
pub open spec fn read_model(s: SlotView) -> Result<u8, CounterError> {
    match s.record {
        Some(count) => Ok(count),
        None => Err(CounterError::SlotNotFound),
    }
}

/// The slot that creation makes: paid `cost` by `payer`, `SLOT_SPACE` bytes,
/// count zero.
pub open spec fn created_model(address: u64, payer: Payer, cost: u64) -> SlotView {
    SlotView {
        address,
        owner: payer.key,
        lamports: cost,
        space: SLOT_SPACE as nat,
        record: Some(0u8),
    }
}

/// The outcome of creating a slot that costs `cost` for `payer`.
pub open spec fn create_outcome(payer: Payer, cost: u64) -> Result<(), CounterError> {
    if !payer.is_signer {
        Err(CounterError::Unauthorized)
    } else if payer.lamports < cost {
        Err(CounterError::InsufficientResources)
    } else {
        Ok(())
    }
}

/// The outcome of closing `s` for `payer`: the slot must be live, and the
/// payer must have signed and be the slot's owner.
pub open spec fn close_outcome(s: SlotView, payer: Payer) -> Result<(), CounterError> {
    if s.record is None {
        Err(CounterError::SlotNotFound)
    } else if !payer.is_signer || payer.key != s.owner {
        Err(CounterError::Unauthorized)
    } else {
        Ok(())
    }
}

/// A slot after a successful close: its bytes and reserve are gone.
pub open spec fn closed_model(s: SlotView) -> SlotView {
    SlotView { lamports: 0, space: 0, record: None, ..s }
}

/// The payer after a successful close of `s`: it holds the slot's reserve too.
pub open spec fn refunded_model(payer: Payer, s: SlotView) -> Payer {
    Payer { lamports: (payer.lamports + s.lamports) as u64, ..payer }
}

} // verus!
