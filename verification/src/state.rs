//! Record layout: the provenance header of an authorized buffer.
//!
//! An authorized buffer's record begins with nine header bytes, written once
//! at initialization and immutable thereafter: the proof byte at offset zero,
//! then the creation seed as eight little-endian bytes. The payload region is
//! everything after them. An anonymous buffer has no header: its payload
//! starts at offset zero.

use vstd::prelude::*;

verus! {

/// Number of bytes the provenance header occupies at the front of an
/// authorized buffer's record.
pub const HEADER_LEN: usize = 9;

/// Provenance data of an authorized buffer, written once at initialization:
/// the proof byte chosen by the derivation search and the creation seed.
/// Every later authorization check re-derives from this stored seed, never
/// from caller-supplied input.
#[derive(Clone, Copy, Debug, PartialEq, Eq, Structural)]
pub struct AuthorizedBufferHeader {
    pub bump_seed: u8,
    pub buffer_seed: u64,
}

/// Header of the priced "vending machine" buffer variant, which is declared
/// in the protocol surface but has no behaviour.
#[derive(Clone, Copy, Debug)]
pub struct VendingMachineBufferHeader {}

/// The nine bytes a header occupies at the front of its record: the proof
/// byte, then the seed in little-endian order.
pub open spec fn spec_header_bytes(h: AuthorizedBufferHeader) -> Seq<u8> {
    seq![h.bump_seed] + vstd::bytes::spec_u64_to_le_bytes(h.buffer_seed)
}

/// The seed stored in a record that begins with an authorized header.
pub open spec fn spec_stored_seed(record: Seq<u8>) -> u64
    recommends
        record.len() >= HEADER_LEN,
{
    vstd::bytes::spec_u64_from_le_bytes(record.subrange(1, 9))
}

impl AuthorizedBufferHeader {
    /// Decode the header from the first nine bytes of a record.
    pub fn read_from(record: &Vec<u8>) -> (h: AuthorizedBufferHeader)
        requires
            record.len() >= HEADER_LEN,
        ensures
            h.bump_seed == record@[0],
            h.buffer_seed == spec_stored_seed(record@),
            spec_header_bytes(h) == record@.subrange(0, 9),
    {
        let bump_seed = record[0];
        let seed_bytes = vstd::slice::slice_subrange(record.as_slice(), 1, 9);
        let buffer_seed = vstd::bytes::u64_from_le_bytes(seed_bytes);
        let h = AuthorizedBufferHeader { bump_seed, buffer_seed };
        proof {
            vstd::bytes::lemma_auto_spec_u64_to_from_le_bytes();
            assert(spec_header_bytes(h) =~= record@.subrange(0, 9));
        }
        h
    }

    /// Write the header into the first nine bytes of a record, leaving the
    /// payload region untouched.
    pub fn write_to(&self, record: &mut Vec<u8>)
        requires
            old(record).len() >= HEADER_LEN,
        ensures
            final(record).len() == old(record).len(),
            final(record)@.subrange(0, 9) == spec_header_bytes(*self),
            final(record)@.subrange(9, final(record).len() as int) == old(record)@.subrange(
                9,
                old(record).len() as int,
            ),
            spec_stored_seed(final(record)@) == self.buffer_seed,
            final(record)@[0] == self.bump_seed,
    {
        let ghost orig = record@;
        record.set(0, self.bump_seed);
        let seed_bytes = vstd::bytes::u64_to_le_bytes(self.buffer_seed);
        let mut i: usize = 0;
        while i < 8
            invariant
                i <= 8,
                record.len() == orig.len(),
                orig.len() >= 9,
                seed_bytes@ == vstd::bytes::spec_u64_to_le_bytes(self.buffer_seed),
                seed_bytes@.len() == 8,
                record@[0] == self.bump_seed,
                forall|k: int| 1 <= k < 1 + i ==> record@[k] == seed_bytes@[k - 1],
                forall|k: int| 1 + i <= k < orig.len() ==> record@[k] == orig[k],
            decreases 8 - i,
        {
            record.set(1 + i, seed_bytes[i]);
            i = i + 1;
        }
        proof {
            vstd::bytes::lemma_auto_spec_u64_to_from_le_bytes();
            assert(record@.subrange(0, 9) =~= spec_header_bytes(*self));
            assert(record@.subrange(9, record.len() as int) =~= orig.subrange(
                9,
                orig.len() as int,
            ));
            assert(record@.subrange(1, 9) =~= vstd::bytes::spec_u64_to_le_bytes(self.buffer_seed));
        }
    }
}

} // verus!
