//! The address derivation engine.
//!
//! A pure function maps an owning identity, a creation seed and the protocol
//! namespace to a derived identifier and an auxiliary proof byte. The search
//! tries a small ordered set of candidate salts and returns the first whose
//! identifier lies outside the construction space reserved for ordinary
//! identities, so the result is reproducible from the inputs alone and fails
//! only when that candidate space is exhausted. The computation itself is done
//! by the ledger's derivation routine; this module states what of it the
//! protocol relies on.

use vstd::prelude::*;

use crate::identity::Identity;

verus! {

/// What the ledger's derivation routine returns for an owning identity, a
/// seed and a namespace: the derived identifier and its proof byte, or
/// nothing when the candidate search space is exhausted.
pub uninterp spec fn derive_result(owner: Seq<u8>, seed: u64, namespace: Seq<u8>) -> Option<
    (Seq<u8>, u8),
>;

/// Whether a key is the well-known identity of the system allocation
/// collaborator.
pub uninterp spec fn is_system_collaborator(key: Seq<u8>) -> bool;

/// Relies on solana_program::pubkey::Pubkey::try_find_program_address, called
/// on the seeds {"authority", owner, seed in little-endian} under the
/// namespace key: a deterministic search over salt candidates whose result
/// depends on those inputs alone, with no hidden randomness.
#[verifier::external_body]
fn find_derived_address(owner: &Identity, seed: u64, namespace: &Identity) -> (r: Option<
    (Identity, u8),
>)
    ensures
        (match r {
            Some(p) => derive_result(owner@, seed, namespace@) == Some((p.0@, p.1)),
            None => derive_result(owner@, seed, namespace@) is None,
        }),
{
    let owner_key = solana_program::pubkey::Pubkey::new_from_array(owner.bytes);
    let namespace_key = solana_program::pubkey::Pubkey::new_from_array(namespace.bytes);
    let seed_bytes = seed.to_le_bytes();
    let seeds: [&[u8]; 3] = [b"authority", owner_key.as_ref(), &seed_bytes];
    let found = solana_program::pubkey::Pubkey::try_find_program_address(&seeds, &namespace_key);
    found.map(|(key, bump)| (Identity { bytes: key.to_bytes() }, bump))
}

/// Relies on solana_program::system_program::check_id, which compares a key
/// against the fixed, well-known identity of the system allocation
/// collaborator.
#[verifier::external_body]
pub(crate) fn is_system_program(key: &Identity) -> (r: bool)
    ensures
        r == is_system_collaborator(key@),
{
    let candidate = solana_program::pubkey::Pubkey::new_from_array(key.bytes);
    solana_program::system_program::check_id(&candidate)
}

/// Derive the identifier and proof byte bound to `(owner, seed)` within
/// `namespace`. Deterministic: the same inputs always yield the same output.
/// Returns nothing only when the candidate search space is exhausted, a fatal
/// configuration error not expected in normal operation.
pub fn derive(owner: &Identity, seed: u64, namespace: &Identity) -> (r: Option<(Identity, u8)>)
    ensures
        (match r {
            Some(p) => derive_result(owner@, seed, namespace@) == Some((p.0@, p.1)),
            None => derive_result(owner@, seed, namespace@) is None,
        }),
{
    find_derived_address(owner, seed, namespace)
}

} // verus!
