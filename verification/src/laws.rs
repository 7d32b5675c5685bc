//! Laws of the protocol, stated over the same spec functions that the
//! operations' contracts use and proved once for all inputs.

use vstd::prelude::*;

use crate::derivation::derive_result;
use crate::error::EchoError;
use crate::processor::all_zero;
use crate::processor::spec_authorized_echo;
use crate::processor::spec_echo;
use crate::state::spec_stored_seed;

verus! {

/// Determinism of the derivation engine: the derived identifier and proof
/// byte are a function of the owning identity, the seed and the namespace
/// alone, so two derivations from identical inputs agree.
pub proof fn lemma_derive_deterministic(
    owner: Seq<u8>,
    seed: u64,
    namespace: Seq<u8>,
    r1: Option<(Seq<u8>, u8)>,
    r2: Option<(Seq<u8>, u8)>,
)
    requires
        r1 == derive_result(owner, seed, namespace),
        r2 == derive_result(owner, seed, namespace),
    ensures
        r1 == r2,
{
}

/// Authorization soundness: a buffer whose identifier was derived for owning
/// identity `a` refuses an authorized echo carrying proof of a different
/// identity `b`, with an address mismatch and before any byte is written —
/// provided the derivation for `b` under the stored seed does not collide
/// with the buffer's identifier, which is all the collision-resistant
/// derivation can promise.
pub proof fn lemma_authorization_soundness(
    record: Seq<u8>,
    namespace: Seq<u8>,
    a: Seq<u8>,
    b: Seq<u8>,
    identifier: Seq<u8>,
    bump: u8,
    data: Seq<u8>,
)
    requires
        record.len() >= 9,
        derive_result(a, spec_stored_seed(record), namespace) == Some((identifier, bump)),
        a != b,
        (derive_result(b, spec_stored_seed(record), namespace) matches Some(p) ==> p.0
            != identifier),
    ensures
        spec_authorized_echo(record, namespace, b, true, identifier, data) == Err::<
            Seq<u8>,
            EchoError,
        >(EchoError::AddressMismatch),
{
}

/// An authorized rewrite fully replaces the payload: its outcome depends on
/// the record's length and header alone, never on what the payload region
/// held before. Stale bytes of an earlier write cannot survive.
pub proof fn lemma_rewrite_ignores_stale_payload(
    r1: Seq<u8>,
    r2: Seq<u8>,
    namespace: Seq<u8>,
    authority: Seq<u8>,
    authority_signed: bool,
    supplied: Seq<u8>,
    data: Seq<u8>,
)
    requires
        r1.len() >= 9,
        r2.len() == r1.len(),
        r1.subrange(0, 9) == r2.subrange(0, 9),
    ensures
        spec_authorized_echo(r1, namespace, authority, authority_signed, supplied, data)
            == spec_authorized_echo(r2, namespace, authority, authority_signed, supplied, data),
{
    assert(r1.subrange(1, 9) =~= r2.subrange(1, 9)) by {
        assert forall|k: int| 0 <= k < 8 implies r1.subrange(1, 9)[k] == r2.subrange(1, 9)[k] by {
            assert(r1.subrange(1, 9)[k] == r1[k + 1]);
            assert(r2.subrange(1, 9)[k] == r2[k + 1]);
            assert(r1.subrange(0, 9)[k + 1] == r1[k + 1]);
            assert(r2.subrange(0, 9)[k + 1] == r2[k + 1]);
        }
    }
    assert(spec_stored_seed(r1) == spec_stored_seed(r2));
    if spec_authorized_echo(r1, namespace, authority, authority_signed, supplied, data) is Ok {
        assert(crate::processor::spec_rewritten(r1, data) =~= crate::processor::spec_rewritten(
            r2,
            data,
        )) by {
            assert forall|k: int| 0 <= k < 9 implies r1[k] == r2[k] by {
                assert(r1.subrange(0, 9)[k] == r1[k]);
                assert(r2.subrange(0, 9)[k] == r2[k]);
            }
        }
    }
}

/// Header immutability: a successful authorized echo leaves the nine header
/// bytes — the proof byte and the stored seed — exactly as they were,
/// whatever the payload holds.
pub proof fn lemma_header_immutable(
    record: Seq<u8>,
    namespace: Seq<u8>,
    authority: Seq<u8>,
    authority_signed: bool,
    supplied: Seq<u8>,
    data: Seq<u8>,
)
    requires
        record.len() >= 9,
    ensures
        (spec_authorized_echo(record, namespace, authority, authority_signed, supplied, data)
            matches Ok(rewritten) ==> rewritten.subrange(0, 9) == record.subrange(0, 9)
            && spec_stored_seed(rewritten) == spec_stored_seed(record)),
{
    if spec_authorized_echo(record, namespace, authority, authority_signed, supplied, data)
        is Ok {
        let rewritten = spec_authorized_echo(
            record,
            namespace,
            authority,
            authority_signed,
            supplied,
            data,
        )->Ok_0;
        assert(rewritten.subrange(0, 9) =~= record.subrange(0, 9));
        assert(rewritten.subrange(1, 9) =~= record.subrange(1, 9));
    }
}

/// Truncation: an authorized echo never writes outside the record. A
/// successful rewrite keeps the record's length, copies exactly the payload
/// prefix that fits after the header, and zeroes the rest of the payload
/// region.
pub proof fn lemma_authorized_echo_truncates(
    record: Seq<u8>,
    namespace: Seq<u8>,
    authority: Seq<u8>,
    authority_signed: bool,
    supplied: Seq<u8>,
    data: Seq<u8>,
)
    requires
        record.len() >= 9,
    ensures
        (spec_authorized_echo(record, namespace, authority, authority_signed, supplied, data)
            matches Ok(rewritten) ==> rewritten.len() == record.len() && (forall|k: int|
            9 <= k < rewritten.len() ==> rewritten[k] == (if k - 9 < data.len() {
                data[k - 9]
            } else {
                0u8
            }))),
{
}

/// The anonymous write too stays inside the record: a successful anonymous
/// echo keeps the record's length and writes exactly the payload prefix that
/// fits.
pub proof fn lemma_echo_stays_in_bounds(record: Seq<u8>, data: Seq<u8>)
    ensures
        (spec_echo(record, data) matches Ok(echoed) ==> echoed.len() == record.len() && (forall|
            k: int,
        |
            0 <= k < echoed.len() ==> echoed[k] == (if k < data.len() {
                data[k]
            } else {
                0u8
            }))),
{
}

/// One-shot anonymous write: once an anonymous echo has landed any non-zero
/// byte in a record, every further anonymous echo on it is refused for not
/// being empty. Combined with the ledger's per-record serialization, at most
/// one anonymous writer ever succeeds.
pub proof fn lemma_anonymous_write_is_one_shot(
    record: Seq<u8>,
    data1: Seq<u8>,
    data2: Seq<u8>,
    echoed: Seq<u8>,
)
    requires
        spec_echo(record, data1) == Ok::<Seq<u8>, EchoError>(echoed),
        exists|i: int| 0 <= i < echoed.len() && echoed[i] != 0u8,
    ensures
        spec_echo(echoed, data2) == Err::<Seq<u8>, EchoError>(EchoError::BufferNotEmpty),
{
    let i = choose|i: int| 0 <= i < echoed.len() && echoed[i] != 0u8;
    assert(!all_zero(echoed));
}

} // verus!
