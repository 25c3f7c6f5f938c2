//! The error taxonomy of the counter ledger. Every failure of the codecs or
//! of the state machine is one of these variants; nothing panics.

use vstd::prelude::*;

verus! {

/// Every way a counter invocation can fail. Each variant is terminal for the
/// current invocation and is raised before any mutation takes place.
#[derive(Clone, Copy, Debug, PartialEq, Eq, Structural)]
pub enum CounterError {
    /// Malformed or unknown instruction tag, or a truncated payload.
    InvalidInstruction,
    /// A persisted record whose initialized-flag byte is neither 0 nor 1,
    /// or a record buffer of the wrong length.
    InvalidAccountData,
    /// The initiator handle lacks the signer flag.
    MissingSignature,
    /// The exemption oracle rejected the counter slot's current funding.
    NotRentExempt,
    /// Init attempted on a slot already carrying an initialized record.
    AlreadyInitialized,
    /// The initiator's key does not match the record's stored owner.
    IncorrectUser,
    /// A checked addition (count increment or balance transfer) would overflow.
    OverflowError,
    /// Fewer account handles were supplied than the instruction requires.
    NotEnoughAccountKeys,
}

} // verus!
