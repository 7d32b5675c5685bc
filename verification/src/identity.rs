//! Identities and record identifiers.
//!
//! An identity is an opaque, unforgeable 32-byte key, as the external ledger
//! assigns them to callers and to buffer records alike. The protocol never
//! looks inside one except to compare it with another, byte for byte.

use vstd::prelude::*;

verus! {

/// A fixed-width 32-byte key: a caller's identity or a record's identifier.
#[derive(Clone, Copy, Debug)]
pub struct Identity {
    pub bytes: [u8; 32],
}

impl View for Identity {
    type V = Seq<u8>;

    open spec fn view(&self) -> Seq<u8> {
        self.bytes@
    }
}

/// Byte-for-byte comparison of two keys.
pub fn identity_eq(a: &Identity, b: &Identity) -> (r: bool)
    ensures
        r == (a@ == b@),
{
    let mut i: usize = 0;
    while i < 32
        invariant
            i <= 32,
            forall|j: int| 0 <= j < i ==> a.bytes@[j] == b.bytes@[j],
        decreases 32 - i,
    {
        if a.bytes[i] != b.bytes[i] {
            return false;
        }
        i = i + 1;
    }
    proof {
        assert(a@ =~= b@);
    }
    true
}

} // verus!
