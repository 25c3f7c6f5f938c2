//! A minimal per-owner counter ledger: a fixed-layout 41-byte record
//! (initialized flag, little-endian count, 32-byte owner key) kept in a
//! host-supplied account slot, together with the instruction codec and the
//! authorization state machine that creates, increments and closes records.

pub mod account;
pub mod error;
pub mod instruction;
pub mod processor;
pub mod state;

pub use account::AccountHandle;
pub use error::CounterError;
pub use instruction::CounterInstruction;
pub use processor::Processor;
pub use state::Counter;
