//! The derived authority: the one address, computed from the protocol's seed and
//! the program's id, that owns every locked token account. No private key exists
//! for it; the host accepts the seed in place of a signature.
use vstd::prelude::*;
use solana_program::pubkey::Pubkey;
use crate::bytes::Key;

verus! {

/// The address, with its bump seed, that the host's program-address search finds
/// for `seeds` and `program_id`; `None` where the search finds none.
pub uninterp spec fn program_address(seeds: Seq<Seq<u8>>, program_id: Seq<u8>) -> Option<
    (Seq<u8>, u8),
>;

/// The protocol's seed: the bytes of the word "escrow".
pub open spec fn authority_seed() -> Seq<u8> {
    seq![101u8, 115u8, 99u8, 114u8, 111u8, 119u8]
}

/// The derived authority of `program_id` with its bump seed, if there is one.
pub open spec fn derived_authority(program_id: Seq<u8>) -> Option<(Seq<u8>, u8)> {
    program_address(seq![authority_seed()], program_id)
}

/// Relies on solana_program's `Pubkey::try_find_program_address`: it searches the
/// bump seeds from 255 down and returns the first address off the curve, a
/// result that depends on the seeds and the program id alone.
#[verifier::external_body]
fn try_find_program_address(seed: &[u8], program_id: &Key) -> (r: Option<(Key, u8)>)
    ensures
        match r {
            Some(found) => program_address(seq![seed@], program_id@) == Some((found.0@, found.1)),
            None => program_address(seq![seed@], program_id@) is None,
        },
{
    Pubkey::try_find_program_address(&[seed], &Pubkey::new_from_array(*program_id)).map(
        |(address, bump)| (address.to_bytes(), bump),
    )
}

/// The seed bytes from which the authority is derived.
pub fn authority_seed_bytes() -> (r: Vec<u8>)
    ensures
        r@ == authority_seed(),
{
    let r: Vec<u8> = vec![101u8, 115u8, 99u8, 114u8, 111u8, 119u8];
    assert(r@ =~= authority_seed());
    r
}

/// Whether `r` is what deriving the authority of `program_id` gives.
pub open spec fn is_derivation_of(program_id: Seq<u8>, r: Option<(Key, u8)>) -> bool {
    match r {
        Some(found) => derived_authority(program_id) == Some((found.0@, found.1)),
        None => derived_authority(program_id) is None,
    }
}

/// Derives the protocol's authority for `program_id`, with its bump seed.
pub fn derive_authority(program_id: &Key) -> (r: Option<(Key, u8)>)
    ensures
        is_derivation_of(program_id@, r),
{
    let seed = authority_seed_bytes();
    try_find_program_address(seed.as_slice(), program_id)
}

/// Deriving the authority twice from the same program id gives the same
/// address and bump seed.
pub proof fn lemma_authority_deterministic(
    program_id: Key,
    first: Option<(Key, u8)>,
    second: Option<(Key, u8)>,
)
    requires
        is_derivation_of(program_id@, first),
        is_derivation_of(program_id@, second),
    ensures
        first == second,
{
    if let (Some(a), Some(b)) = (first, second) {
        assert(a.0 =~= b.0);
    }
}

} // verus!
