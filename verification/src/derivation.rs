use vstd::prelude::*;
use crate::state::Pubkey;

verus! {

broadcast use vstd::array::group_array_axioms;

/// The address and bump that the host's program-address search yields for a
/// single seed and an owning program, or `None` where the search finds no
/// off-curve address. The result is a function of the two arguments alone.
pub uninterp spec fn derived_authority_of(seed: Seq<u8>, program_id: Seq<u8>) -> Option<
    (Seq<u8>, u8),
>;

/// The fixed seed the escrow program derives its custody authority from:
/// the bytes of "escrow".
pub open spec fn escrow_seed() -> Seq<u8> {
    seq![101u8, 115u8, 99u8, 114u8, 111u8, 119u8]
}

/// Relies on solana_program's Pubkey::try_find_program_address: a
/// deterministic search over bump values whose result depends only on the
/// seeds and the program id; it returns None when no bump puts the derived
/// address off the curve.
#[verifier::external_body]
fn try_find_program_address(seed: &[u8], program_id: &Pubkey) -> (r: Option<(Pubkey, u8)>)
    ensures
        match (r, derived_authority_of(seed@, program_id@)) {
            (Some(found), Some(named)) => found.0@ == named.0 && found.1 == named.1,
            (None, None) => true,
            _ => false,
        },
{
    let pid = solana_program::pubkey::Pubkey::new_from_array(*program_id);
    match solana_program::pubkey::Pubkey::try_find_program_address(&[seed], &pid) {
        Some((address, bump)) => Some((address.to_bytes(), bump)),
        None => None,
    }
}

/// Derive the keyless custody authority for the owning program: the address
/// the fixed seed "escrow" maps to, with the bump byte that the search
/// discovered. Initialize and Exchange both call this, so the same authority
/// is computed at grant time and at use time without persisting the bump.
pub fn derive_custody_authority(program_id: &Pubkey) -> (r: Option<(Pubkey, u8)>)
    ensures
        match (r, derived_authority_of(escrow_seed(), program_id@)) {
            (Some(found), Some(named)) => found.0@ == named.0 && found.1 == named.1,
            (None, None) => true,
            _ => false,
        },
{
    let seed: [u8; 6] = [101, 115, 99, 114, 111, 119];
    proof {
        assert(seed@ =~= escrow_seed());
    }
    try_find_program_address(seed.as_slice(), program_id)
}

} // verus!
