//! State codec: the fixed-layout 41-byte encoding of a counter record.
//! Offset 0 holds the initialized flag (exactly 0 or 1), offsets 1..9 the
//! little-endian count, offsets 9..41 the raw 32-byte owner key. The codec
//! is a pure bidirectional transform with no authorization logic.

use vstd::prelude::*;
use vstd::bytes::spec_u64_from_le_bytes;
use vstd::bytes::spec_u64_to_le_bytes;
use vstd::bytes::lemma_auto_spec_u64_to_from_le_bytes;
use vstd::bytes::u64_from_le_bytes;
use vstd::bytes::u64_to_le_bytes;
use vstd::slice::slice_subrange;

use crate::error::CounterError;

verus! {

/// Total length of the persisted record: 1 flag byte + 8 count bytes
/// + 32 owner bytes.
pub const RECORD_LEN: usize = 41;

/// The persisted counter record. While `is_initialised` is false the other
/// two fields are meaningless and must not be trusted by any transition
/// other than Init.
#[derive(Clone, Copy, Debug)]
pub struct Counter {
    pub is_initialised: bool,
    pub count: u64,
    pub owner: [u8; 32],
}

/// The mathematical value of a record: the same three fields with the owner
/// key as a byte sequence.
pub struct CounterView {
    pub is_initialised: bool,
    pub count: u64,
    pub owner: Seq<u8>,
}

/// Byte-wise equality of two 32-byte keys.
pub fn keys_equal(a: &[u8; 32], b: &[u8; 32]) -> (r: bool)
    ensures
        r == (a@ == b@),
{
    let mut i: usize = 0;
    while i < 32
        invariant
            0 <= i <= 32,
            forall|j: int| 0 <= j < i ==> a@[j] == b@[j],
        decreases 32 - i,
    {
        if a[i] != b[i] {
            return false;
        }
        i += 1;
    }
    proof {
        assert(a@ =~= b@);
    }
    true
}

impl PartialEq for Counter {
    fn eq(&self, other: &Counter) -> (r: bool) {
        self.is_initialised == other.is_initialised && self.count == other.count && keys_equal(
            &self.owner,
            &other.owner,
        )
    }
}

impl vstd::std_specs::cmp::PartialEqSpecImpl for Counter {
    open spec fn obeys_eq_spec() -> bool {
        true
    }

    open spec fn eq_spec(&self, other: &Counter) -> bool {
        self.is_initialised == other.is_initialised && self.count == other.count && self.owner@
            == other.owner@
    }
}

impl Eq for Counter {

}

impl View for Counter {
    type V = CounterView;

    open spec fn view(&self) -> CounterView {
        CounterView { is_initialised: self.is_initialised, count: self.count, owner: self.owner@ }
    }
}

impl CounterView {
    /// A well-formed record view carries a full 32-byte owner key.
    pub open spec fn wf(self) -> bool {
        self.owner.len() == 32
    }
}

/// The byte-exact persisted form of a record: flag byte, then the count in
/// little-endian, then the owner key. Always 41 bytes for a well-formed view.
pub open spec fn spec_encode(v: CounterView) -> Seq<u8> {
    seq![if v.is_initialised { 1u8 } else { 0u8 }] + spec_u64_to_le_bytes(v.count) + v.owner
}

/// What decoding a 41-byte buffer yields: a record whose flag byte is
/// exactly 0 or 1, or `InvalidAccountData` for any other flag byte or any
/// other buffer length.
pub open spec fn spec_decode(s: Seq<u8>) -> Result<CounterView, CounterError> {
    if s.len() != 41 {
        Err(CounterError::InvalidAccountData)
    } else if s[0] == 0 || s[0] == 1 {
        Ok(
            CounterView {
                is_initialised: s[0] == 1,
                count: spec_u64_from_le_bytes(s.subrange(1, 9)),
                owner: s.subrange(9, 41),
            },
        )
    } else {
        Err(CounterError::InvalidAccountData)
    }
}

/// Round trip: decoding the encoding of any well-formed record view gives
/// back exactly that view.
pub proof fn lemma_encode_decode_round_trip(v: CounterView)
    requires
        v.wf(),
    ensures
        spec_encode(v).len() == 41,
        spec_decode(spec_encode(v)) == Ok::<CounterView, CounterError>(v),
{
    lemma_auto_spec_u64_to_from_le_bytes();
    let s = spec_encode(v);
    assert(s.subrange(1, 9) =~= spec_u64_to_le_bytes(v.count));
    assert(s.subrange(9, 41) =~= v.owner);
    let d = spec_decode(s);
    assert(d matches Ok(w) && w =~= v);
}

impl Counter {
    /// Whether the record has been initialized by a prior Init transition.
    pub fn is_initialized(&self) -> (b: bool)
        ensures
            b == self.is_initialised,
    {
        self.is_initialised
    }

    /// Decode a record from the first 41 bytes of `src`, exactly as
    /// `spec_decode` says.
    pub fn unpack_from_slice(src: &[u8]) -> (r: Result<Counter, CounterError>)
        requires
            src@.len() >= 41,
        ensures
            (match (r, spec_decode(src@.subrange(0, 41))) {
                (Ok(c), Ok(v)) => c@ == v,
                (Err(e), Err(f)) => e == f,
                _ => false,
            }),
    {
        let flag = src[0];
        let is_initialised = match flag {
            0 => false,
            1 => true,
            _ => {
                return Err(CounterError::InvalidAccountData);
            },
        };
        let count_bytes = slice_subrange(src, 1, 9);
        let count = u64_from_le_bytes(count_bytes);
        let mut owner: [u8; 32] = [0u8; 32];
        for i in 0..32
            invariant
                src@.len() >= 41,
                owner@.len() == 32,
                forall|j: int| 0 <= j < i ==> owner@[j] == src@[9 + j],
        {
            owner[i] = src[9 + i];
        }
        let c = Counter { is_initialised, count, owner };
        proof {
            let s = src@.subrange(0, 41);
            assert(count_bytes@ =~= s.subrange(1, 9));
            assert(owner@ =~= s.subrange(9, 41));
        }
        Ok(c)
    }

    /// Decode a record from a buffer of any length: a buffer that is not
    /// exactly 41 bytes is `InvalidAccountData`, otherwise as `spec_decode`.
    /// Tolerant of an uninitialized (all-zero) buffer, which decodes to a
    /// record with `is_initialised == false`.
    pub fn unpack_unchecked(input: &[u8]) -> (r: Result<Counter, CounterError>)
        ensures
            (match (r, spec_decode(input@)) {
                (Ok(c), Ok(v)) => c@ == v,
                (Err(e), Err(f)) => e == f,
                _ => false,
            }),
    {
        if input.len() != RECORD_LEN {
            return Err(CounterError::InvalidAccountData);
        }
        let r = Self::unpack_from_slice(input);
        proof {
            assert(input@.subrange(0, 41) =~= input@);
        }
        r
    }

    /// Overwrite `dst` in full with the 41-byte encoding of this record.
    pub fn pack_into_slice(&self, dst: &mut Vec<u8>)
        requires
            old(dst)@.len() == 41,
        ensures
            final(dst)@ == spec_encode(self@),
            final(dst)@.len() == 41,
    {
        proof {
            lemma_auto_spec_u64_to_from_le_bytes();
        }
        let flag: u8 = if self.is_initialised {
            1
        } else {
            0
        };
        dst.clear();
        dst.push(flag);
        let mut count_bytes = u64_to_le_bytes(self.count);
        dst.append(&mut count_bytes);
        for i in 0..32
            invariant
                dst@ == seq![if self.is_initialised { 1u8 } else { 0u8 }]
                    + spec_u64_to_le_bytes(self.count) + self.owner@.subrange(0, i as int),
        {
            dst.push(self.owner[i]);
            proof {
                assert(self.owner@.subrange(0, i + 1) =~= self.owner@.subrange(0, i as int).push(
                    self.owner@[i as int],
                ));
            }
        }
        proof {
            assert(self.owner@.subrange(0, 32) =~= self.owner@);
            assert(spec_encode(self@).len() == 41);
        }
    }
}

} // verus!
