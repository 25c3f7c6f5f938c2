//! Instruction codec: decodes an opaque byte string into one of the three
//! typed commands. The first byte is the discriminant tag, the remaining
//! bytes are the payload. Decoding is pure, deterministic and total: every
//! byte string yields either a command or `InvalidInstruction`.

use vstd::prelude::*;
use vstd::bytes::spec_u64_from_le_bytes;
use vstd::bytes::u64_from_le_bytes;
use vstd::slice::slice_subrange;

use crate::error::CounterError;

verus! {

/// A decoded command, one of three tagged variants.
#[derive(Clone, Copy, Debug, PartialEq, Eq, Structural)]
pub enum CounterInstruction {
    /// Tag 0: create the record in the supplied slot. No payload.
    InitCounter,
    /// Tag 1: add `amount` to the record's count. Payload: 8 bytes,
    /// little-endian unsigned.
    Increment { amount: u64 },
    /// Tag 2: destroy the record and reclaim the slot's balance. No payload.
    Close,
}

/// What decoding an instruction byte string yields, for every input:
/// tag 0 is Init, tag 1 with at least 8 payload bytes is Increment by the
/// little-endian value of the first 8, tag 2 is Close; everything else,
/// including empty input, is `InvalidInstruction`.
pub open spec fn spec_unpack(input: Seq<u8>) -> Result<CounterInstruction, CounterError> {
    if input.len() == 0 {
        Err(CounterError::InvalidInstruction)
    } else if input[0] == 0 {
        Ok(CounterInstruction::InitCounter)
    } else if input[0] == 1 {
        if input.len() >= 9 {
            Ok(
                CounterInstruction::Increment {
                    amount: spec_u64_from_le_bytes(input.subrange(1, 9)),
                },
            )
        } else {
            Err(CounterError::InvalidInstruction)
        }
    } else if input[0] == 2 {
        Ok(CounterInstruction::Close)
    } else {
        Err(CounterError::InvalidInstruction)
    }
}

impl CounterInstruction {
    /// Decode an instruction byte string. Total: never panics, and returns
    /// exactly what `spec_unpack` says for every input.
    pub fn unpack(input: &[u8]) -> (r: Result<Self, CounterError>)
        ensures
            r == spec_unpack(input@),
    {
        if input.len() == 0 {
            return Err(CounterError::InvalidInstruction);
        }
        let tag = input[0];
        let rest = slice_subrange(input, 1, input.len());
        match tag {
            0 => Ok(CounterInstruction::InitCounter),
            1 => {
                let amount = match Self::unpack_amount(rest) {
                    Ok(a) => a,
                    Err(e) => {
                        return Err(e);
                    },
                };
                proof {
                    assert(rest@.subrange(0, 8) =~= input@.subrange(1, 9));
                }
                Ok(CounterInstruction::Increment { amount })
            },
            2 => Ok(CounterInstruction::Close),
            _ => Err(CounterError::InvalidInstruction),
        }
    }

    /// Read the Increment payload: the first 8 bytes of `input` as a
    /// little-endian unsigned 64-bit integer; fewer than 8 bytes is a
    /// truncated payload.
    fn unpack_amount(input: &[u8]) -> (r: Result<u64, CounterError>)
        ensures
            input@.len() >= 8 ==> r == Ok::<u64, CounterError>(
                spec_u64_from_le_bytes(input@.subrange(0, 8)),
            ),
            input@.len() < 8 ==> r == Err::<u64, CounterError>(CounterError::InvalidInstruction),
    {
        if input.len() < 8 {
            return Err(CounterError::InvalidInstruction);
        }
        let bytes = slice_subrange(input, 0, 8);
        Ok(u64_from_le_bytes(bytes))
    }
}

} // verus!
