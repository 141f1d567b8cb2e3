use vstd::prelude::*;

use crate::error::CounterError;
use crate::model::{
    close_outcome, closed_model, create_outcome, read_model, created_model, refunded_model, update_model,
    Payer, SlotView, UpdateOp, SLOT_SPACE,
};

verus! {

/// The counter record held in a slot.
#[derive(Clone, Copy, Debug, PartialEq, Eq, Structural)]
pub struct Degenpoker {
    count: u8,
}

impl View for Degenpoker {
    type V = u8;

    closed spec fn view(&self) -> u8 {
        self.count
    }
}

impl Degenpoker {
    /// The record's count.
    pub fn count(&self) -> (r: u8)
        ensures
            r == self@,
    {
        self.count
    }
}

/// A storage slot for one counter: a handle that stays valid as a value after
/// the slot is closed, and then names a slot that is no longer live.
pub struct Slot {
    address: u64,
    owner: u64,
    lamports: u64,
    space: usize,
    data: Option<Degenpoker>,
}

impl View for Slot {
    type V = SlotView;

    closed spec fn view(&self) -> SlotView {
        SlotView {
            address: self.address,
            owner: self.owner,
            lamports: self.lamports,
            space: self.space as nat,
            record: match self.data {
                Some(d) => Some(d.count),
                None => None,
            },
        }
    }
}

impl Slot {
    /// A live slot has exactly the counter's allocation; a closed one has no
    /// bytes and no reserve.
    #[verifier::type_invariant]
    spec fn inv(self) -> bool {
        match self.data {
            Some(_) => self.space == SLOT_SPACE,
            None => self.space == 0 && self.lamports == 0,
        }
    }

    /// A live slot as the ledger holds it: its address, the key of the payer
    /// that created it, its reserve, and the stored count.
    pub fn load(address: u64, owner: u64, lamports: u64, count: u8) -> (s: Slot)
        ensures
            s@ == (SlotView {
                address,
                owner,
                lamports,
                space: SLOT_SPACE as nat,
                record: Some(count),
            }),
    {
        Slot { address, owner, lamports, space: SLOT_SPACE, data: Some(Degenpoker { count }) }
    }

    /// Whether the slot is still live.
    pub fn is_live(&self) -> (r: bool)
        ensures
            r == (self@.record is Some),
    {
        self.data.is_some()
    }

    /// The count of a live slot; `SlotNotFound` once it is closed.
    pub fn count(&self) -> (r: Result<u8, CounterError>)
        ensures
            r == read_model(self@),
    {
        match &self.data {
            Some(d) => Ok(d.count),
            None => Err(CounterError::SlotNotFound),
        }
    }

    /// The record of a live slot.
    pub fn data(&self) -> (r: Option<Degenpoker>)
        ensures
            r matches Some(d) ==> self@.record == Some(d@),
            r is None <==> self@.record is None,
    {
        self.data
    }

    /// The address that the runtime gave the slot.
    pub fn address(&self) -> (r: u64)
        ensures
            r == self@.address,
    {
        self.address
    }

    /// The key of the payer that created the slot.
    pub fn owner(&self) -> (r: u64)
        ensures
            r == self@.owner,
    {
        self.owner
    }

    /// The reserve held by the slot.
    pub fn lamports(&self) -> (r: u64)
        ensures
            r == self@.lamports,
    {
        self.lamports
    }

    /// The bytes allocated to the slot.
    pub fn space(&self) -> (r: usize)
        ensures
            r as nat == self@.space,
    {
        self.space
    }

    /// Applies `op` to a live slot's count; see `update_model`.
    fn apply(&mut self, op: UpdateOp) -> (r: Result<(), CounterError>)
        ensures
            (final(self)@, r) == update_model(old(self)@, op),
    {
        proof {
            use_type_invariant(&*self);
        }
        let count = match &self.data {
            Some(d) => d.count,
            None => return Err(CounterError::SlotNotFound),
        };
        let next = match op {
            UpdateOp::Increment => match count.checked_add(1) {
                Some(n) => n,
                None => return Err(CounterError::ArithmeticOverflow),
            },
            UpdateOp::Decrement => match count.checked_sub(1) {
                Some(n) => n,
                None => return Err(CounterError::ArithmeticUnderflow),
            },
            UpdateOp::SetValue(value) => value,
        };
        self.data = Some(Degenpoker { count: next });
        Ok(())
    }
}

/// The accounts of `initialize`: the payer, the address the runtime has
/// reserved for the new slot, and what the runtime charges for `SLOT_SPACE`
/// bytes.
#[derive(Clone, Copy, Debug, PartialEq, Eq, Structural)]
pub struct InitializeDegenpoker {
    pub payer: Payer,
    pub address: u64,
    pub slot_cost: u64,
}

/// The accounts of `close`: the payer to refund and the slot to close.
pub struct CloseDegenpoker {
    pub payer: Payer,
    pub degenpoker: Slot,
}

/// The account of `increment`, `decrement` and `set`: the slot to update.
pub struct Update {
    pub degenpoker: Slot,
}

/// Creates a counter slot at `ctx.address`, paid by `ctx.payer`, with count
/// zero. The payer must have signed and hold `ctx.slot_cost`; the slot keeps
/// that cost as its reserve.
pub fn initialize(ctx: &mut InitializeDegenpoker) -> (r: Result<Slot, CounterError>)
    ensures
        create_outcome(old(ctx).payer, old(ctx).slot_cost) matches Err(e) ==> {
            &&& r == Err::<Slot, CounterError>(e)
            &&& *final(ctx) == *old(ctx)
        },
        create_outcome(old(ctx).payer, old(ctx).slot_cost) is Ok ==> {
            &&& r matches Ok(s) && s@ == created_model(
                old(ctx).address,
                old(ctx).payer,
                old(ctx).slot_cost,
            )
            &&& final(ctx).payer == (Payer {
                lamports: (old(ctx).payer.lamports - old(ctx).slot_cost) as u64,
                ..old(ctx).payer
            })
            &&& final(ctx).address == old(ctx).address
            &&& final(ctx).slot_cost == old(ctx).slot_cost
        },
{
    if !ctx.payer.is_signer {
        return Err(CounterError::Unauthorized);
    }
    if ctx.payer.lamports < ctx.slot_cost {
        return Err(CounterError::InsufficientResources);
    }
    ctx.payer.lamports = ctx.payer.lamports - ctx.slot_cost;
    Ok(
        Slot {
            address: ctx.address,
            owner: ctx.payer.key,
            lamports: ctx.slot_cost,
            space: SLOT_SPACE,
            data: Some(Degenpoker { count: 0 }),
        },
    )
}

/// Adds one to the count; `ArithmeticOverflow` at `u8::MAX`.
pub fn increment(ctx: &mut Update) -> (r: Result<(), CounterError>)
    ensures
        (final(ctx).degenpoker@, r) == update_model(old(ctx).degenpoker@, UpdateOp::Increment),
{
    ctx.degenpoker.apply(UpdateOp::Increment)
}

/// Takes one from the count; `ArithmeticUnderflow` at zero.
pub fn decrement(ctx: &mut Update) -> (r: Result<(), CounterError>)
    ensures
        (final(ctx).degenpoker@, r) == update_model(old(ctx).degenpoker@, UpdateOp::Decrement),
{
    ctx.degenpoker.apply(UpdateOp::Decrement)
}

/// Replaces the count with `value`.
pub fn set(ctx: &mut Update, value: u8) -> (r: Result<(), CounterError>)
    ensures
        (final(ctx).degenpoker@, r) == update_model(
            old(ctx).degenpoker@,
            UpdateOp::SetValue(value),
        ),
{
    ctx.degenpoker.apply(UpdateOp::SetValue(value))
}

/// Closes the slot and moves its reserve to the payer, who must have signed
/// and be the slot's owner. Afterwards the slot is no longer live.
pub fn close(ctx: &mut CloseDegenpoker) -> (r: Result<(), CounterError>)
    requires
        old(ctx).payer.lamports + old(ctx).degenpoker@.lamports <= u64::MAX,
    ensures
        r == close_outcome(old(ctx).degenpoker@, old(ctx).payer),
        r is Err ==> final(ctx).payer == old(ctx).payer && final(ctx).degenpoker@
            == old(ctx).degenpoker@,
        r is Ok ==> final(ctx).payer == refunded_model(old(ctx).payer, old(ctx).degenpoker@)
            && final(ctx).degenpoker@ == closed_model(old(ctx).degenpoker@),
{
    if ctx.degenpoker.data.is_none() {
        return Err(CounterError::SlotNotFound);
    }
    if !ctx.payer.is_signer || ctx.payer.key != ctx.degenpoker.owner {
        return Err(CounterError::Unauthorized);
    }
    ctx.payer.lamports = ctx.payer.lamports + ctx.degenpoker.lamports;
    ctx.degenpoker = Slot {
        address: ctx.degenpoker.address,
        owner: ctx.degenpoker.owner,
        lamports: 0,
        space: 0,
        data: None,
    };
    Ok(())
}

} // verus!
