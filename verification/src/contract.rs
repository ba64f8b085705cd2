//! The data pool contract: the four-operation capability set the cache
//! engine programs against, implemented by the volatile pool here and by the
//! persistent pool, so the engine stays agnostic to persistence.

use vstd::prelude::*;

use crate::errors::PoolError;
use crate::region::RawRegion;

verus! {

/// A fixed-size byte region with optional durability. `content` is the live
/// byte sequence; `inv` is the implementation's well-formedness, which every
/// operation preserves as long as the caller leaves the length alone (a
/// slice cannot change length).
pub trait DataPool: Sized {
    /// The pool's live content.
    spec fn content(&self) -> Seq<u8>;

    /// The implementation's well-formedness.
    spec fn inv(&self) -> bool;

    /// The pool's size in bytes.
    fn len(&self) -> (r: usize)
        requires
            self.inv(),
        ensures
            r == self.content().len(),
    ;

    /// Read access to the live content.
    fn as_slice(&self) -> (r: &[u8])
        requires
            self.inv(),
        ensures
            r@ == self.content(),
    ;

    /// Write access to the live content.
    fn as_mut_slice(&mut self) -> (r: &mut [u8])
        requires
            old(self).inv(),
        ensures
            r@ == old(self).content(),
            final(self).content() == final(r)@,
            final(r)@.len() == old(self).content().len() ==> final(self).inv(),
    ;

    /// Makes the live content durable where the implementation persists;
    /// never changes the live content itself.
    fn flush(&mut self) -> (r: Result<(), PoolError>)
        requires
            old(self).inv(),
        ensures
            final(self).inv(),
            final(self).content() == old(self).content(),
    ;
}

/// A memory-only pool: the raw region with a flush that has nothing to do
/// and always succeeds.
pub struct VolatilePool {
    region: RawRegion,
}

impl VolatilePool {
    /// A zero-filled volatile pool of `data_size` bytes.
    pub fn new(data_size: usize) -> (r: VolatilePool)
        ensures
            r.content() == Seq::new(data_size as nat, |i: int| 0u8),
    {
        VolatilePool { region: RawRegion::new_zeroed(data_size) }
    }
}

impl DataPool for VolatilePool {
    closed spec fn content(&self) -> Seq<u8> {
        self.region@
    }

    open spec fn inv(&self) -> bool {
        true
    }

    fn len(&self) -> (r: usize) {
        self.region.len()
    }

    fn as_slice(&self) -> (r: &[u8]) {
        self.region.as_slice()
    }

    fn as_mut_slice(&mut self) -> (r: &mut [u8]) {
        self.region.as_mut_slice()
    }

    fn flush(&mut self) -> (r: Result<(), PoolError>)
        ensures
            r matches Ok(()),
    {
        Ok(())
    }
}

} // verus!
