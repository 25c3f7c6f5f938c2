//! The host-supplied account handle, modeled as the plain values the state
//! machine reads and writes: a 32-byte key, a pre-verified signer flag, a
//! balance, and the mutable byte buffer backing the record. The host locks
//! every handle for the duration of one invocation, so the handle is owned
//! data here, handed in and back by the caller.

use vstd::prelude::*;

verus! {

/// One account handle as supplied by the external host for a single
/// invocation.
#[derive(Debug)]
pub struct AccountHandle {
    /// The account's 32-byte public identity.
    pub key: [u8; 32],
    /// Whether the host verified a signature for this account.
    pub is_signer: bool,
    /// The account's funding balance.
    pub lamports: u64,
    /// The byte buffer backing the account's persisted content.
    pub data: Vec<u8>,
}

/// The mathematical value of a handle: the same fields with the byte
/// payloads as sequences.
pub struct AccountHandleView {
    pub key: Seq<u8>,
    pub is_signer: bool,
    pub lamports: u64,
    pub data: Seq<u8>,
}

impl View for AccountHandle {
    type V = AccountHandleView;

    open spec fn view(&self) -> AccountHandleView {
        AccountHandleView {
            key: self.key@,
            is_signer: self.is_signer,
            lamports: self.lamports,
            data: self.data@,
        }
    }
}

} // verus!
