//! A persistent counter record: one `u8` held in a storage slot that is
//! created, updated in place and closed, with overflow-checked arithmetic
//! and a two-state lifecycle (live, closed).

mod error;
pub mod laws;
mod model;
pub mod program;

pub use error::CounterError;
pub use model::{
    close_outcome, closed_model, create_outcome, created_model, read_model, refunded_model, step,
    update_model, Payer, SlotView, UpdateOp, DISCRIMINATOR_LEN, INIT_SPACE, SLOT_SPACE,
};
pub use program::{
    close, decrement, increment, initialize, CloseDegenpoker, Degenpoker, InitializeDegenpoker,
    Slot, Update,
};
