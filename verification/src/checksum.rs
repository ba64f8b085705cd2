//! The content digest: a 32-byte cryptographic hash over the zero-checksum
//! header followed by the data region, used to detect corruption.

use vstd::prelude::*;

verus! {

/// The 32-byte digest that the hash assigns to `bytes`. The digest is a
/// function of the input bytes alone; nothing else is stated of it.
pub uninterp spec fn digest_of(bytes: Seq<u8>) -> Seq<u8>;

/// Relies on blake3::hash: a 256-bit cryptographic digest, determined by the
/// input bytes alone, returned as its 32 raw bytes.
#[verifier::external_body]
pub(crate) fn compute_digest(bytes: &Vec<u8>) -> (r: Vec<u8>)
    ensures
        r@ == digest_of(bytes@),
        r@.len() == 32,
{
    blake3::hash(bytes.as_slice()).as_bytes().to_vec()
}

/// Byte-for-byte comparison of two byte strings.
pub(crate) fn bytes_equal(a: &[u8], b: &[u8]) -> (r: bool)
    ensures
        r == (a@ == b@),
{
    if a.len() != b.len() {
        proof {
            assert(a@.len() != b@.len());
        }
        return false;
    }
    let mut i: usize = 0;
    while i < a.len()
        invariant
            i <= a@.len(),
            a@.len() == b@.len(),
            forall|j: int| 0 <= j < i ==> a@[j] == b@[j],
        decreases a@.len() - i,
    {
        if a[i] != b[i] {
            return false;
        }
        i = i + 1;
    }
    proof {
        assert(a@ =~= b@);
    }
    true
}

} // verus!
