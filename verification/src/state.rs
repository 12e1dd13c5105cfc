use vstd::prelude::*;
use vstd::bytes::spec_u64_from_le_bytes;
use vstd::bytes::spec_u64_to_le_bytes;
use vstd::bytes::lemma_auto_spec_u64_to_from_le_bytes;
use vstd::bytes::u64_from_le_bytes;
use vstd::bytes::u64_to_le_bytes;
use vstd::slice::slice_index_get;
use vstd::slice::slice_subrange;
use crate::error::EscrowError;

verus! {

broadcast use vstd::array::group_array_axioms;

/// A 32-byte account identity.
pub type Pubkey = [u8; 32];

/// Width in bytes of a packed escrow record:
/// one flag byte, three 32-byte identities, one 8-byte amount.
pub const ESCROW_RECORD_LEN: usize = 105;

/// The persisted escrow record. A slot is either empty (`is_initialized`
/// false) or holds one active escrow fully populated by Initialize.
#[derive(Clone, Copy, Debug, PartialEq, Eq)]
pub struct Escrow {
    /// Discriminates an empty slot from an active escrow.
    pub is_initialized: bool,
    /// The depositing party's account.
    pub initializer_pubkey: Pubkey,
    /// The account temporarily holding the deposited token.
    pub temp_token_account_pubkey: Pubkey,
    /// Where the counter token must be delivered on success.
    pub initializer_token_to_recieve_account_pubkey: Pubkey,
    /// Quantity of the counter token required to unlock the swap.
    pub expected_amount: u64,
}

/// The packed form of a record: flag byte, then the three identities in
/// declaration order, then the amount little-endian.
pub open spec fn spec_pack(e: Escrow) -> Seq<u8> {
    seq![if e.is_initialized { 1u8 } else { 0u8 }]
        + e.initializer_pubkey@
        + e.temp_token_account_pubkey@
        + e.initializer_token_to_recieve_account_pubkey@
        + spec_u64_to_le_bytes(e.expected_amount)
}

/// A buffer parses as a record exactly when it is 105 bytes long and its
/// flag byte is 0 or 1.
pub open spec fn spec_record_bytes_ok(s: Seq<u8>) -> bool {
    s.len() == 105 && (s[0] == 0 || s[0] == 1)
}

/// How a parsed record relates to the buffer it was read from.
pub open spec fn spec_unpacked(s: Seq<u8>, e: Escrow) -> bool {
    &&& e.is_initialized == (s[0] == 1)
    &&& e.initializer_pubkey@ == s.subrange(1, 33)
    &&& e.temp_token_account_pubkey@ == s.subrange(33, 65)
    &&& e.initializer_token_to_recieve_account_pubkey@ == s.subrange(65, 97)
    &&& e.expected_amount == spec_u64_from_le_bytes(s.subrange(97, 105))
}

/// Copy 32 bytes out of `src` starting at `off`.
fn read_key(src: &[u8], off: usize) -> (k: Pubkey)
    requires
        off + 32 <= src@.len(),
    ensures
        k@ == src@.subrange(off as int, off as int + 32),
{
    let mut k: Pubkey = [0; 32];
    let n = src.len();
    let mut i: usize = 0;
    while i < 32
        invariant
            i <= 32,
            off + 32 <= n,
            n == src@.len(),
            forall|j: int| 0 <= j < i ==> k@[j] == src@[off + j],
        decreases 32 - i,
    {
        k[i] = *slice_index_get(src, off + i);
        i += 1;
    }
    proof {
        assert(k@ =~= src@.subrange(off as int, off as int + 32));
    }
    k
}

/// Whether two identities are the same.
pub fn key_eq(a: &Pubkey, b: &Pubkey) -> (r: bool)
    ensures
        r == (a@ == b@),
{
    let mut i: usize = 0;
    while i < 32
        invariant
            i <= 32,
            forall|j: int| 0 <= j < i ==> a@[j] == b@[j],
        decreases 32 - i,
    {
        if a[i] != b[i] {
            assert(a@[i as int] != b@[i as int]);
            return false;
        }
        i += 1;
    }
    proof {
        assert(a@ =~= b@);
    }
    true
}

impl Escrow {
    /// Whether this record marks an active escrow.
    pub fn is_initialized(&self) -> (b: bool)
        ensures
            b == self.is_initialized,
    {
        self.is_initialized
    }

    /// Parse a 105-byte buffer into a record. The parse accepts any flag
    /// value 0 or 1; callers that need an active record must check
    /// `is_initialized` themselves.
    pub fn unpack_from_slice(src: &[u8]) -> (r: Result<Escrow, EscrowError>)
        ensures
            match r {
                Ok(e) => spec_record_bytes_ok(src@) && spec_unpacked(src@, e),
                Err(er) => !spec_record_bytes_ok(src@) && er == EscrowError::InvalidAccountData,
            },
    {
        if src.len() != ESCROW_RECORD_LEN {
            return Err(EscrowError::InvalidAccountData);
        }
        let flag = *slice_index_get(src, 0);
        let is_initialized = match flag {
            0 => false,
            1 => true,
            _ => {
                return Err(EscrowError::InvalidAccountData);
            },
        };
        let amount_bytes = slice_subrange(src, 97, 105);
        Ok(Escrow {
            is_initialized,
            initializer_pubkey: read_key(src, 1),
            temp_token_account_pubkey: read_key(src, 33),
            initializer_token_to_recieve_account_pubkey: read_key(src, 65),
            expected_amount: u64_from_le_bytes(amount_bytes),
        })
    }

    /// Serialize this record into its fixed 105-byte form.
    pub fn pack(&self) -> (out: Vec<u8>)
        ensures
            out@ == spec_pack(*self),
    {
        let mut out: Vec<u8> = Vec::new();
        out.push(if self.is_initialized { 1 } else { 0 });
        push_key(&mut out, &self.initializer_pubkey);
        push_key(&mut out, &self.temp_token_account_pubkey);
        push_key(&mut out, &self.initializer_token_to_recieve_account_pubkey);
        let amount_bytes = u64_to_le_bytes(self.expected_amount);
        let mut i: usize = 0;
        while i < amount_bytes.len()
            invariant
                i <= amount_bytes@.len(),
                amount_bytes@.len() == 8,
                out@ == seq![if self.is_initialized { 1u8 } else { 0u8 }]
                    + self.initializer_pubkey@
                    + self.temp_token_account_pubkey@
                    + self.initializer_token_to_recieve_account_pubkey@
                    + amount_bytes@.subrange(0, i as int),
            decreases amount_bytes@.len() - i,
        {
            out.push(amount_bytes[i]);
            proof {
                assert(amount_bytes@.subrange(0, i + 1) =~= amount_bytes@.subrange(0, i as int)
                    + seq![amount_bytes@[i as int]]);
            }
            i += 1;
        }
        proof {
            assert(amount_bytes@.subrange(0, 8) =~= amount_bytes@);
            assert(out@ =~= spec_pack(*self));
        }
        out
    }
}

/// Append the 32 bytes of an identity to a byte vector.
fn push_key(out: &mut Vec<u8>, k: &Pubkey)
    ensures
        final(out)@ == old(out)@ + k@,
{
    let mut i: usize = 0;
    while i < 32
        invariant
            i <= 32,
            out@ == old(out)@ + k@.subrange(0, i as int),
        decreases 32 - i,
    {
        out.push(k[i]);
        proof {
            assert(k@.subrange(0, i + 1) =~= k@.subrange(0, i as int) + seq![k@[i as int]]);
        }
        i += 1;
    }
    proof {
        assert(k@.subrange(0, 32) =~= k@);
    }
}

/// A packed record always parses back to the record it came from: packing
/// yields a well-formed 105-byte buffer, and that buffer's parse relation
/// holds of the record it was packed from.
pub proof fn lemma_pack_unpack_roundtrip(e: Escrow)
    ensures
        spec_record_bytes_ok(spec_pack(e)),
        spec_unpacked(spec_pack(e), e),
{
    let s = spec_pack(e);
    lemma_auto_spec_u64_to_from_le_bytes();
    assert(s.len() == 105);
    assert(s.subrange(1, 33) =~= e.initializer_pubkey@);
    assert(s.subrange(33, 65) =~= e.temp_token_account_pubkey@);
    assert(s.subrange(65, 97) =~= e.initializer_token_to_recieve_account_pubkey@);
    assert(s.subrange(97, 105) =~= spec_u64_to_le_bytes(e.expected_amount));
}

/// A well-formed buffer parses to at most one record.
pub proof fn lemma_unpack_unique(s: Seq<u8>, e1: Escrow, e2: Escrow)
    requires
        spec_record_bytes_ok(s),
        spec_unpacked(s, e1),
        spec_unpacked(s, e2),
    ensures
        e1 == e2,
{
    assert(e1.initializer_pubkey =~= e2.initializer_pubkey);
    assert(e1.temp_token_account_pubkey =~= e2.temp_token_account_pubkey);
    assert(e1.initializer_token_to_recieve_account_pubkey
        =~= e2.initializer_token_to_recieve_account_pubkey);
}

} // verus!
