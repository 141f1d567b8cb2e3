use degenpoker::{
    close, decrement, increment, initialize, CloseDegenpoker, CounterError, InitializeDegenpoker,
    Payer, Slot, Update, SLOT_SPACE,
};

fn payer(key: u64, lamports: u64) -> Payer {
    Payer { key, is_signer: true, lamports }
}

fn live_slot(count: u8) -> Update {
    let mut ctx = InitializeDegenpoker { payer: payer(1, 1_000), address: 42, slot_cost: 100 };
    let slot = initialize(&mut ctx).unwrap();
    let mut update = Update { degenpoker: slot };
    degenpoker::program::set(&mut update, count).unwrap();
    update
}

fn closed_slot() -> Slot {
    let update = live_slot(5);
    let mut ctx = CloseDegenpoker { payer: payer(1, 0), degenpoker: update.degenpoker };
    close(&mut ctx).unwrap();
    ctx.degenpoker
}

#[test]
fn slot_space_is_tag_plus_one_byte() {
    assert_eq!(SLOT_SPACE, 9);
}

#[test]
fn initialize_makes_zero_count_and_charges_payer() {
    let mut ctx = InitializeDegenpoker { payer: payer(7, 500), address: 3, slot_cost: 120 };
    let slot = initialize(&mut ctx).unwrap();
    assert_eq!(slot.count(), Ok(0));
    assert!(slot.is_live());
    assert_eq!(slot.address(), 3);
    assert_eq!(slot.owner(), 7);
    assert_eq!(slot.lamports(), 120);
    assert_eq!(slot.space(), 9);
    assert_eq!(slot.data().map(|d| d.count()), Some(0));
    assert_eq!(ctx.payer.lamports, 380);
}

#[test]
fn initialize_unsigned_payer_is_unauthorized() {
    let before = InitializeDegenpoker {
        payer: Payer { key: 7, is_signer: false, lamports: 500 },
        address: 3,
        slot_cost: 120,
    };
    let mut ctx = before;
    assert_eq!(initialize(&mut ctx).err(), Some(CounterError::Unauthorized));
    assert_eq!(ctx, before);
}

#[test]
fn initialize_short_of_funds_fails() {
    let before = InitializeDegenpoker { payer: payer(7, 119), address: 3, slot_cost: 120 };
    let mut ctx = before;
    assert_eq!(initialize(&mut ctx).err(), Some(CounterError::InsufficientResources));
    assert_eq!(ctx, before);
}

#[test]
fn initialize_with_exact_funds_succeeds() {
    let mut ctx = InitializeDegenpoker { payer: payer(7, 120), address: 3, slot_cost: 120 };
    assert!(initialize(&mut ctx).is_ok());
    assert_eq!(ctx.payer.lamports, 0);
}

#[test]
fn increment_adds_one() {
    let mut u = live_slot(41);
    assert_eq!(increment(&mut u), Ok(()));
    assert_eq!(u.degenpoker.count(), Ok(42));
    let mut u = live_slot(254);
    assert_eq!(increment(&mut u), Ok(()));
    assert_eq!(u.degenpoker.count(), Ok(255));
}

#[test]
fn increment_at_max_overflows() {
    let mut u = live_slot(255);
    assert_eq!(increment(&mut u), Err(CounterError::ArithmeticOverflow));
    assert_eq!(u.degenpoker.count(), Ok(255));
}

#[test]
fn decrement_takes_one() {
    let mut u = live_slot(1);
    assert_eq!(decrement(&mut u), Ok(()));
    assert_eq!(u.degenpoker.count(), Ok(0));
    let mut u = live_slot(255);
    assert_eq!(decrement(&mut u), Ok(()));
    assert_eq!(u.degenpoker.count(), Ok(254));
}

#[test]
fn decrement_at_zero_underflows() {
    let mut u = live_slot(0);
    assert_eq!(decrement(&mut u), Err(CounterError::ArithmeticUnderflow));
    assert_eq!(u.degenpoker.count(), Ok(0));
}

#[test]
fn set_replaces_any_value() {
    for prior in [0u8, 17, 255] {
        for value in [0u8, 1, 128, 255] {
            let mut u = live_slot(prior);
            assert_eq!(degenpoker::program::set(&mut u, value), Ok(()));
            assert_eq!(u.degenpoker.count(), Ok(value));
        }
    }
}

#[test]
fn create_then_read_is_zero() {
    let mut ctx = InitializeDegenpoker { payer: payer(9, 10), address: 1, slot_cost: 0 };
    let slot = initialize(&mut ctx).unwrap();
    assert_eq!(slot.count(), Ok(0));
}

#[test]
fn reading_twice_gives_same_value() {
    let u = live_slot(77);
    let first = u.degenpoker.count();
    let second = u.degenpoker.count();
    assert_eq!(first, second);
    assert_eq!(first, Ok(77));
}

#[test]
fn close_refunds_owner_and_ends_slot() {
    let u = live_slot(5);
    let mut ctx = CloseDegenpoker { payer: payer(1, 30), degenpoker: u.degenpoker };
    assert_eq!(close(&mut ctx), Ok(()));
    assert_eq!(ctx.payer.lamports, 130);
    assert!(!ctx.degenpoker.is_live());
    assert_eq!(ctx.degenpoker.lamports(), 0);
    assert_eq!(ctx.degenpoker.space(), 0);
    assert!(ctx.degenpoker.data().is_none());
}

#[test]
fn close_by_other_key_is_unauthorized() {
    let u = live_slot(5);
    let mut ctx = CloseDegenpoker { payer: payer(2, 30), degenpoker: u.degenpoker };
    assert_eq!(close(&mut ctx), Err(CounterError::Unauthorized));
    assert_eq!(ctx.payer.lamports, 30);
    assert_eq!(ctx.degenpoker.count(), Ok(5));
    assert_eq!(ctx.degenpoker.lamports(), 100);
}

#[test]
fn close_unsigned_is_unauthorized() {
    let u = live_slot(5);
    let mut ctx = CloseDegenpoker {
        payer: Payer { key: 1, is_signer: false, lamports: 30 },
        degenpoker: u.degenpoker,
    };
    assert_eq!(close(&mut ctx), Err(CounterError::Unauthorized));
    assert!(ctx.degenpoker.is_live());
}

#[test]
fn closed_slot_rejects_everything() {
    let mut u = Update { degenpoker: closed_slot() };
    assert_eq!(increment(&mut u), Err(CounterError::SlotNotFound));
    assert_eq!(decrement(&mut u), Err(CounterError::SlotNotFound));
    assert_eq!(degenpoker::program::set(&mut u, 3), Err(CounterError::SlotNotFound));
    assert_eq!(u.degenpoker.count(), Err(CounterError::SlotNotFound));
    let mut ctx = CloseDegenpoker { payer: payer(1, 0), degenpoker: u.degenpoker };
    assert_eq!(close(&mut ctx), Err(CounterError::SlotNotFound));
    assert_eq!(ctx.payer.lamports, 0);
}

#[test]
fn full_lifecycle_sequence() {
    let mut ictx = InitializeDegenpoker { payer: payer(4, 1_000), address: 8, slot_cost: 50 };
    let slot = initialize(&mut ictx).unwrap();
    let mut u = Update { degenpoker: slot };
    for _ in 0..3 {
        assert_eq!(increment(&mut u), Ok(()));
    }
    assert_eq!(u.degenpoker.count(), Ok(3));
    for _ in 0..3 {
        assert_eq!(decrement(&mut u), Ok(()));
    }
    assert_eq!(u.degenpoker.count(), Ok(0));
    assert_eq!(decrement(&mut u), Err(CounterError::ArithmeticUnderflow));
    assert_eq!(decrement(&mut u), Err(CounterError::ArithmeticUnderflow));
    assert_eq!(degenpoker::program::set(&mut u, 200), Ok(()));
    assert_eq!(u.degenpoker.count(), Ok(200));
    for _ in 0..55 {
        assert_eq!(increment(&mut u), Ok(()));
    }
    assert_eq!(u.degenpoker.count(), Ok(255));
    assert_eq!(increment(&mut u), Err(CounterError::ArithmeticOverflow));
    assert_eq!(u.degenpoker.count(), Ok(255));
    let mut cctx = CloseDegenpoker { payer: ictx.payer, degenpoker: u.degenpoker };
    assert_eq!(close(&mut cctx), Ok(()));
    assert_eq!(cctx.payer.lamports, 1_000);
    let mut u = Update { degenpoker: cctx.degenpoker };
    assert_eq!(increment(&mut u), Err(CounterError::SlotNotFound));
    assert_eq!(decrement(&mut u), Err(CounterError::SlotNotFound));
    assert_eq!(degenpoker::program::set(&mut u, 1), Err(CounterError::SlotNotFound));
}
