//! Content fingerprints: a 64-bit digest of an image's bytes, used to tell
//! cheaply whether the image on the clipboard is the one seen before.

use std::hash::DefaultHasher;
use std::hash::Hasher;
use vstd::prelude::*;
use vstd::std_specs::hash::DefaultHasherAdditionalSpecFns;

verus! {

/// The fingerprint of a byte sequence: what the standard library's default
/// hasher, freshly made, reports after the bytes were written to it in one
/// piece.
pub open spec fn fingerprint_of(bytes: Seq<u8>) -> u64 {
    DefaultHasher::spec_finish(seq![bytes])
}

/// Computes the fingerprint of `bytes`. It depends on the bytes alone.
pub fn fingerprint(bytes: &[u8]) -> (digest: u64)
    ensures
        digest == fingerprint_of(bytes@),
{
    let mut hasher = DefaultHasher::new();
    hasher.write(bytes);
    hasher.finish()
}

/// Equal bytes have equal fingerprints.
pub proof fn lemma_equal_bytes_equal_fingerprints(a: Seq<u8>, b: Seq<u8>)
    requires
        a =~= b,
    ensures
        fingerprint_of(a) == fingerprint_of(b),
{
}

} // verus!
