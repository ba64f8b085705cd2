//! The raw memory region: a fixed-size byte buffer with slice access and no
//! persistence awareness. A volatile pool reuses it unchanged.

use vstd::prelude::*;

verus! {

/// Builds a vector of `n` zero bytes.
pub fn zero_vec(n: usize) -> (r: Vec<u8>)
    ensures
        r@ == Seq::new(n as nat, |i: int| 0u8),
{
    let mut v: Vec<u8> = Vec::new();
    while v.len() < n
        invariant
            v@.len() <= n,
            forall|j: int| 0 <= j < v@.len() ==> v@[j] == 0u8,
        decreases n - v@.len(),
    {
        v.push(0u8);
    }
    proof {
        assert(v@ =~= Seq::new(n as nat, |i: int| 0u8));
    }
    v
}

/// Appends every byte of `src` to `dst`, in order.
pub fn append_bytes(dst: &mut Vec<u8>, src: &[u8])
    ensures
        final(dst)@ == old(dst)@ + src@,
{
    let mut i: usize = 0;
    proof {
        assert(dst@ =~= old(dst)@ + src@.subrange(0, 0));
    }
    while i < src.len()
        invariant
            i <= src@.len(),
            dst@ == old(dst)@ + src@.subrange(0, i as int),
        decreases src@.len() - i,
    {
        let b = src[i];
        dst.push(b);
        i = i + 1;
        proof {
            assert(dst@ =~= old(dst)@ + src@.subrange(0, i as int));
        }
    }
    proof {
        assert(dst@ =~= old(dst)@ + src@);
    }
}

/// A fixed-size byte buffer owned by a pool. Its view is the byte sequence
/// it holds.
pub struct RawRegion {
    bytes: Vec<u8>,
}

impl View for RawRegion {
    type V = Seq<u8>;

    closed spec fn view(&self) -> Seq<u8> {
        self.bytes@
    }
}

impl RawRegion {
    /// A zero-initialized region of `size` bytes.
    pub fn new_zeroed(size: usize) -> (r: RawRegion)
        ensures
            r@ == Seq::new(size as nat, |i: int| 0u8),
            r@.len() == size,
    {
        RawRegion { bytes: zero_vec(size) }
    }

    /// A region holding exactly `bytes`.
    pub fn from_bytes(bytes: Vec<u8>) -> (r: RawRegion)
        ensures
            r@ == bytes@,
    {
        RawRegion { bytes }
    }

    /// The region's size in bytes.
    pub fn len(&self) -> (r: usize)
        ensures
            r == self@.len(),
    {
        self.bytes.len()
    }

    /// Read access to the whole region.
    pub fn as_slice(&self) -> (r: &[u8])
        ensures
            r@ == self@,
    {
        self.bytes.as_slice()
    }

    /// Write access to the whole region. The region afterwards holds
    /// whatever the caller left in the slice; a slice cannot change length.
    pub fn as_mut_slice(&mut self) -> (r: &mut [u8])
        ensures
            r@ == old(self)@,
            final(self)@ == final(r)@,
    {
        self.bytes.as_mut_slice()
    }
}

} // verus!
