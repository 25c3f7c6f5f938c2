//! The state machine: dispatches a decoded command against the supplied
//! account handles, enforcing the signature, exemption, authorization and
//! overflow rules. Every transition either performs all of its mutations or,
//! on the first failed check, performs none and returns the error.
//!
//! Account ordering is positional: `[initiator, counter slot]`, with a third
//! exemption-oracle reference required for Init. The exemption oracle itself
//! is an external collaborator; the machine consumes only its boolean
//! verdict, supplied by the caller for the counter slot's current balance
//! and buffer length.

use vstd::prelude::*;

use crate::account::AccountHandle;
use crate::error::CounterError;
use crate::instruction::CounterInstruction;
use crate::instruction::spec_unpack;
use crate::state::Counter;
use crate::state::CounterView;
use crate::state::keys_equal;
use crate::state::spec_decode;
use crate::state::spec_encode;

verus! {

/// The outcome the Init transition owes for any pre-state: which error, in
/// check order (accounts, signature, exemption, record decode, re-init
/// guard), or success.
pub open spec fn spec_init_outcome(pre: Seq<AccountHandle>, rent_exempt: bool) -> Result<
    (),
    CounterError,
> {
    if pre.len() < 3 {
        Err(CounterError::NotEnoughAccountKeys)
    } else if !pre[0].is_signer {
        Err(CounterError::MissingSignature)
    } else if !rent_exempt {
        Err(CounterError::NotRentExempt)
    } else {
        match spec_decode(pre[1].data@) {
            Err(e) => Err(e),
            Ok(v) => if v.is_initialised {
                Err(CounterError::AlreadyInitialized)
            } else {
                Ok(())
            },
        }
    }
}

/// The outcome the Increment transition owes: which error, in check order
/// (accounts, signature, record decode, ownership, overflow), or success.
pub open spec fn spec_increment_outcome(pre: Seq<AccountHandle>, amount: u64) -> Result<
    (),
    CounterError,
> {
    if pre.len() < 2 {
        Err(CounterError::NotEnoughAccountKeys)
    } else if !pre[0].is_signer {
        Err(CounterError::MissingSignature)
    } else {
        match spec_decode(pre[1].data@) {
            Err(e) => Err(e),
            Ok(v) => if v.owner != pre[0].key@ {
                Err(CounterError::IncorrectUser)
            } else if v.count + amount > u64::MAX {
                Err(CounterError::OverflowError)
            } else {
                Ok(())
            },
        }
    }
}

/// The outcome the Close transition owes: which error, in check order
/// (accounts, signature, record decode, ownership, balance overflow), or
/// success.
pub open spec fn spec_close_outcome(pre: Seq<AccountHandle>) -> Result<(), CounterError> {
    if pre.len() < 2 {
        Err(CounterError::NotEnoughAccountKeys)
    } else if !pre[0].is_signer {
        Err(CounterError::MissingSignature)
    } else {
        match spec_decode(pre[1].data@) {
            Err(e) => Err(e),
            Ok(v) => if v.owner != pre[0].key@ {
                Err(CounterError::IncorrectUser)
            } else if pre[0].lamports + pre[1].lamports > u64::MAX {
                Err(CounterError::OverflowError)
            } else {
                Ok(())
            },
        }
    }
}

/// The outcome of one whole invocation: instruction decode, then the
/// dispatched transition's outcome.
pub open spec fn spec_outcome(
    pre: Seq<AccountHandle>,
    instruction_data: Seq<u8>,
    rent_exempt: bool,
) -> Result<(), CounterError> {
    match spec_unpack(instruction_data) {
        Err(e) => Err(e),
        Ok(CounterInstruction::InitCounter) => spec_init_outcome(pre, rent_exempt),
        Ok(CounterInstruction::Increment { amount }) => spec_increment_outcome(pre, amount),
        Ok(CounterInstruction::Close) => spec_close_outcome(pre),
    }
}

/// After a successful Init: only the counter slot changed, and only its
/// buffer, which now holds exactly the encoding of a fresh record owned by
/// the initiator.
pub open spec fn init_post(pre: Seq<AccountHandle>, post: Seq<AccountHandle>) -> bool {
    &&& post.len() == pre.len()
    &&& forall|i: int| 0 <= i < pre.len() && i != 1 ==> post[i] == pre[i]
    &&& post[1].key == pre[1].key
    &&& post[1].is_signer == pre[1].is_signer
    &&& post[1].lamports == pre[1].lamports
    &&& post[1].data@ == spec_encode(
        CounterView { is_initialised: true, count: 0, owner: pre[0].key@ },
    )
}

/// After a successful Increment: only the counter slot's buffer changed,
/// and it holds the old record with exactly the count field raised by
/// `amount`; flag and owner are untouched.
pub open spec fn increment_post(
    pre: Seq<AccountHandle>,
    post: Seq<AccountHandle>,
    amount: u64,
) -> bool {
    &&& post.len() == pre.len()
    &&& forall|i: int| 0 <= i < pre.len() && i != 1 ==> post[i] == pre[i]
    &&& post[1].key == pre[1].key
    &&& post[1].is_signer == pre[1].is_signer
    &&& post[1].lamports == pre[1].lamports
    &&& spec_decode(pre[1].data@) matches Ok(v) && post[1].data@ == spec_encode(
        CounterView {
            is_initialised: v.is_initialised,
            count: (v.count + amount) as u64,
            owner: v.owner,
        },
    )
}

/// After a successful Close: the slot's whole balance moved to the
/// initiator, the slot's balance is zero and its buffer is empty; nothing
/// else changed.
pub open spec fn close_post(pre: Seq<AccountHandle>, post: Seq<AccountHandle>) -> bool {
    &&& post.len() == pre.len()
    &&& forall|i: int| 0 <= i < pre.len() && i != 0 && i != 1 ==> post[i] == pre[i]
    &&& post[0].key == pre[0].key
    &&& post[0].is_signer == pre[0].is_signer
    &&& post[0].data == pre[0].data
    &&& post[0].lamports == pre[0].lamports + pre[1].lamports
    &&& post[1].key == pre[1].key
    &&& post[1].is_signer == pre[1].is_signer
    &&& post[1].lamports == 0
    &&& post[1].data@ == Seq::<u8>::empty()
}

/// The state machine. All logic is in associated functions; the struct
/// itself carries no state.
pub struct Processor;

impl Processor {
    /// One whole invocation: decode `instruction_data`, dispatch the command
    /// against `accounts`, and mutate them only on success. `rent_exempt` is
    /// the external exemption oracle's verdict for the counter slot's
    /// current balance and buffer length; it is consulted by Init only.
    pub fn process(
        program_id: &[u8; 32],
        accounts: &mut Vec<AccountHandle>,
        instruction_data: &[u8],
        rent_exempt: bool,
    ) -> (r: Result<(), CounterError>)
        ensures
            r == spec_outcome(old(accounts)@, instruction_data@, rent_exempt),
            r is Err ==> final(accounts)@ == old(accounts)@,
            r is Ok ==> match spec_unpack(instruction_data@) {
                Ok(CounterInstruction::InitCounter) => init_post(old(accounts)@, final(accounts)@),
                Ok(CounterInstruction::Increment { amount }) => increment_post(
                    old(accounts)@,
                    final(accounts)@,
                    amount,
                ),
                Ok(CounterInstruction::Close) => close_post(old(accounts)@, final(accounts)@),
                Err(_) => false,
            },
    {
        let instruction = match CounterInstruction::unpack(instruction_data) {
            Ok(i) => i,
            Err(e) => {
                return Err(e);
            },
        };
        match instruction {
            CounterInstruction::InitCounter => Self::process_init(accounts, program_id, rent_exempt),
            CounterInstruction::Increment { amount } => Self::increment(
                accounts,
                amount,
                program_id,
            ),
            CounterInstruction::Close => Self::close(accounts, program_id),
        }
    }

    /// The Init transition on `[initiator, counter slot, oracle reference]`:
    /// guard signature, exemption and re-initialization, then write a fresh
    /// record owned by the initiator into the slot's buffer.
    pub fn process_init(
        accounts: &mut Vec<AccountHandle>,
        _program_id: &[u8; 32],
        rent_exempt: bool,
    ) -> (r: Result<(), CounterError>)
        ensures
            r == spec_init_outcome(old(accounts)@, rent_exempt),
            r is Err ==> final(accounts)@ == old(accounts)@,
            r is Ok ==> init_post(old(accounts)@, final(accounts)@),
    {
        if accounts.len() < 3 {
            return Err(CounterError::NotEnoughAccountKeys);
        }
        if !accounts[0].is_signer {
            return Err(CounterError::MissingSignature);
        }
        if !rent_exempt {
            return Err(CounterError::NotRentExempt);
        }
        let counter_info = match Counter::unpack_unchecked(accounts[1].data.as_slice()) {
            Ok(c) => c,
            Err(e) => {
                return Err(e);
            },
        };
        if counter_info.is_initialized() {
            return Err(CounterError::AlreadyInitialized);
        }
        let new_record = Counter { is_initialised: true, count: 0, owner: accounts[0].key };
        let slot = &mut accounts[1];
        new_record.pack_into_slice(&mut slot.data);
        Ok(())
    }

    /// The Increment transition on `[initiator, counter slot]`: guard
    /// signature, ownership and overflow, then rewrite the record with the
    /// count raised by `amount`.
    pub fn increment(
        accounts: &mut Vec<AccountHandle>,
        amount: u64,
        _program_id: &[u8; 32],
    ) -> (r: Result<(), CounterError>)
        ensures
            r == spec_increment_outcome(old(accounts)@, amount),
            r is Err ==> final(accounts)@ == old(accounts)@,
            r is Ok ==> increment_post(old(accounts)@, final(accounts)@, amount),
    {
        if accounts.len() < 2 {
            return Err(CounterError::NotEnoughAccountKeys);
        }
        if !accounts[0].is_signer {
            return Err(CounterError::MissingSignature);
        }
        let counter_info = match Counter::unpack_unchecked(accounts[1].data.as_slice()) {
            Ok(c) => c,
            Err(e) => {
                return Err(e);
            },
        };
        if !keys_equal(&counter_info.owner, &accounts[0].key) {
            return Err(CounterError::IncorrectUser);
        }
        let new_count = match counter_info.count.checked_add(amount) {
            Some(c) => c,
            None => {
                return Err(CounterError::OverflowError);
            },
        };
        let updated = Counter {
            is_initialised: counter_info.is_initialised,
            count: new_count,
            owner: counter_info.owner,
        };
        let slot = &mut accounts[1];
        updated.pack_into_slice(&mut slot.data);
        Ok(())
    }

    /// The Close transition on `[initiator, counter slot]`: guard signature,
    /// ownership and balance overflow, then move the slot's whole balance to
    /// the initiator, zero the slot's balance and empty its buffer.
    pub fn close(accounts: &mut Vec<AccountHandle>, _program_id: &[u8; 32]) -> (r: Result<
        (),
        CounterError,
    >)
        ensures
            r == spec_close_outcome(old(accounts)@),
            r is Err ==> final(accounts)@ == old(accounts)@,
            r is Ok ==> close_post(old(accounts)@, final(accounts)@),
    {
        if accounts.len() < 2 {
            return Err(CounterError::NotEnoughAccountKeys);
        }
        if !accounts[0].is_signer {
            return Err(CounterError::MissingSignature);
        }
        let counter_info = match Counter::unpack_unchecked(accounts[1].data.as_slice()) {
            Ok(c) => c,
            Err(e) => {
                return Err(e);
            },
        };
        if !keys_equal(&counter_info.owner, &accounts[0].key) {
            return Err(CounterError::IncorrectUser);
        }
        let new_lamports = match accounts[0].lamports.checked_add(accounts[1].lamports) {
            Some(l) => l,
            None => {
                return Err(CounterError::OverflowError);
            },
        };
        let initiator = &mut accounts[0];
        initiator.lamports = new_lamports;
        let slot = &mut accounts[1];
        slot.lamports = 0;
        slot.data.clear();
        Ok(())
    }
}

/// Init on a slot whose 41-byte buffer is all zero, by a signing initiator
/// with an exempt slot, succeeds; combined with `Processor::process`'s
/// postcondition the slot then holds exactly the encoding of
/// `{initialized: true, count: 0, owner: initiator key}`, which decodes
/// back to that record.
pub proof fn lemma_init_on_zeroed_slot_succeeds(pre: Seq<AccountHandle>, rent_exempt: bool)
    requires
        pre.len() >= 3,
        pre[0].is_signer,
        rent_exempt,
        pre[1].data@.len() == 41,
        forall|i: int| 0 <= i < 41 ==> pre[1].data@[i] == 0,
    ensures
        spec_init_outcome(pre, rent_exempt) == Ok::<(), CounterError>(()),
        spec_decode(spec_encode(CounterView { is_initialised: true, count: 0, owner: pre[0].key@ }))
            == Ok::<CounterView, CounterError>(
            CounterView { is_initialised: true, count: 0, owner: pre[0].key@ },
        ),
{
    crate::state::lemma_encode_decode_round_trip(
        CounterView { is_initialised: true, count: 0, owner: pre[0].key@ },
    );
}

/// Init on a slot already carrying an initialized record fails with
/// `AlreadyInitialized`; by `Processor::process`'s postcondition on errors,
/// the buffer is left unchanged.
pub proof fn lemma_init_on_initialized_slot_fails(pre: Seq<AccountHandle>, rent_exempt: bool)
    requires
        pre.len() >= 3,
        pre[0].is_signer,
        rent_exempt,
        spec_decode(pre[1].data@) matches Ok(v) && v.is_initialised,
    ensures
        spec_init_outcome(pre, rent_exempt) == Err::<(), CounterError>(
            CounterError::AlreadyInitialized,
        ),
{
}

/// Increment by an initiator whose key differs from the record's owner
/// fails with `IncorrectUser`; by `Processor::process`'s postcondition on
/// errors, the buffer (and so the count) is unchanged.
pub proof fn lemma_increment_by_wrong_user_fails(pre: Seq<AccountHandle>, amount: u64)
    requires
        pre.len() >= 2,
        pre[0].is_signer,
        spec_decode(pre[1].data@) matches Ok(v) && v.owner != pre[0].key@,
    ensures
        spec_increment_outcome(pre, amount) == Err::<(), CounterError>(CounterError::IncorrectUser),
{
}

/// Increment whose checked addition would exceed the count's range fails
/// with `OverflowError`; by `Processor::process`'s postcondition on errors,
/// the buffer is unchanged. In particular a record at the maximum count
/// overflows on any positive amount.
pub proof fn lemma_increment_overflow_fails(pre: Seq<AccountHandle>, amount: u64)
    requires
        pre.len() >= 2,
        pre[0].is_signer,
        spec_decode(pre[1].data@) matches Ok(v) && v.owner == pre[0].key@ && v.count + amount
            > u64::MAX,
    ensures
        spec_increment_outcome(pre, amount) == Err::<(), CounterError>(CounterError::OverflowError),
{
}

/// Increment by the record's owner succeeds whenever the new count stays in
/// range; `Processor::process`'s postcondition then says the slot holds the
/// old record with exactly the count raised, flag and owner untouched.
pub proof fn lemma_increment_by_owner_succeeds(pre: Seq<AccountHandle>, amount: u64)
    requires
        pre.len() >= 2,
        pre[0].is_signer,
        spec_decode(pre[1].data@) matches Ok(v) && v.owner == pre[0].key@ && v.count + amount
            <= u64::MAX,
    ensures
        spec_increment_outcome(pre, amount) == Ok::<(), CounterError>(()),
{
}

/// Close by the record's owner succeeds whenever the combined balances stay
/// in range; `Processor::process`'s postcondition then says the whole slot
/// balance moved to the initiator, the slot balance is zero and the slot
/// buffer is empty.
pub proof fn lemma_close_by_owner_succeeds(pre: Seq<AccountHandle>)
    requires
        pre.len() >= 2,
        pre[0].is_signer,
        spec_decode(pre[1].data@) matches Ok(v) && v.owner == pre[0].key@,
        pre[0].lamports + pre[1].lamports <= u64::MAX,
    ensures
        spec_close_outcome(pre) == Ok::<(), CounterError>(()),
{
}

/// An Increment rewrite keeps the slot decodable and changes only the
/// count: the flag and the owner survive byte-for-byte. In particular an
/// initialized record never reverts to uninitialized in place.
pub proof fn lemma_increment_preserves_flag_and_owner(
    pre: Seq<AccountHandle>,
    post: Seq<AccountHandle>,
    amount: u64,
)
    requires
        pre.len() >= 2,
        increment_post(pre, post, amount),
    ensures
        spec_decode(pre[1].data@) matches Ok(v) && spec_decode(post[1].data@) == Ok::<
            CounterView,
            CounterError,
        >(
            CounterView {
                is_initialised: v.is_initialised,
                count: (v.count + amount) as u64,
                owner: v.owner,
            },
        ),
{
    let v = spec_decode(pre[1].data@)->Ok_0;
    let updated = CounterView {
        is_initialised: v.is_initialised,
        count: (v.count + amount) as u64,
        owner: v.owner,
    };
    crate::state::lemma_encode_decode_round_trip(updated);
}

/// A non-signing initiator fails every transition with `MissingSignature`,
/// whatever the slot's buffer holds — even an undecodable one: the
/// signature check precedes any record inspection.
pub proof fn lemma_missing_signature_precedes_inspection(
    pre: Seq<AccountHandle>,
    amount: u64,
    rent_exempt: bool,
)
    requires
        pre.len() >= 2,
        !pre[0].is_signer,
    ensures
        spec_increment_outcome(pre, amount) == Err::<(), CounterError>(
            CounterError::MissingSignature,
        ),
        spec_close_outcome(pre) == Err::<(), CounterError>(CounterError::MissingSignature),
        pre.len() >= 3 ==> spec_init_outcome(pre, rent_exempt) == Err::<(), CounterError>(
            CounterError::MissingSignature,
        ),
{
}

} // verus!
