//! The storage layer a persistent pool writes through, the retry loops that
//! turn its possibly-short transfers into whole-buffer transfers, and a
//! verified in-memory storage that can simulate short transfers.

use vstd::prelude::*;

use crate::errors::PoolError;

verus! {

/// `base` with the bytes starting at `off` replaced by `patch`.
pub open spec fn spec_splice(base: Seq<u8>, off: int, patch: Seq<u8>) -> Seq<u8>
    recommends
        0 <= off,
        off + patch.len() <= base.len(),
{
    base.take(off) + patch + base.skip(off + patch.len())
}

/// A fixed-size backing store addressed by byte offset. A single transfer
/// may move fewer bytes than asked for (a short read or write); a hard
/// failure is reported as `PoolError::Io`. Reads and writes never change the
/// store's size; only `grow_to` does.
pub trait Storage: Sized {
    /// The bytes the store currently holds.
    spec fn contents(&self) -> Seq<u8>;

    /// The store's current size in bytes.
    fn size(&self) -> (r: usize)
        ensures
            r == self.contents().len(),
    ;

    /// Extends the store with zero bytes up to `new_size`.
    fn grow_to(&mut self, new_size: usize) -> (r: Result<(), PoolError>)
        requires
            new_size >= old(self).contents().len(),
        ensures
            r matches Ok(()) ==> final(self).contents() == old(self).contents() + Seq::new(
                (new_size - old(self).contents().len()) as nat,
                |i: int| 0u8,
            ),
            r matches Err(e) ==> e == PoolError::Io,
    ;

    /// Reads up to `buf.len()` bytes starting at offset `off` into the front
    /// of `buf`; at least one byte when `buf` is not empty. Never changes
    /// the contents.
    fn read_at(&mut self, off: usize, buf: &mut Vec<u8>) -> (r: Result<usize, PoolError>)
        requires
            off + old(buf)@.len() <= old(self).contents().len(),
        ensures
            final(self).contents() == old(self).contents(),
            final(buf)@.len() == old(buf)@.len(),
            r matches Ok(n) ==> {
                &&& n <= old(buf)@.len()
                &&& (old(buf)@.len() > 0 ==> n >= 1)
                &&& final(buf)@.subrange(0, n as int) == old(self).contents().subrange(
                    off as int,
                    off + n,
                )
            },
            r matches Err(e) ==> e == PoolError::Io,
    ;

    /// Writes up to `data.len()` bytes starting at offset `off`; at least
    /// one byte when `data` is not empty. A hard failure writes nothing.
    fn write_at(&mut self, off: usize, data: &[u8]) -> (r: Result<usize, PoolError>)
        requires
            off + data@.len() <= old(self).contents().len(),
        ensures
            r matches Ok(n) ==> {
                &&& n <= data@.len()
                &&& (data@.len() > 0 ==> n >= 1)
                &&& final(self).contents() == spec_splice(
                    old(self).contents(),
                    off as int,
                    data@.subrange(0, n as int),
                )
            },
            r matches Err(e) ==> e == PoolError::Io && final(self).contents() == old(
                self,
            ).contents(),
    ;

    /// A durability barrier: everything written so far is durable when this
    /// returns successfully. Never changes the contents.
    fn sync(&mut self) -> (r: Result<(), PoolError>)
        ensures
            final(self).contents() == old(self).contents(),
            r matches Err(e) ==> e == PoolError::Io,
    ;
}

/// Reads exactly `len` bytes starting at `off`, retrying short reads until
/// the whole range has been read. The result is the same as a single full
/// read; short transfers cannot change it.
pub fn read_exact_at<S: Storage>(s: &mut S, off: usize, len: usize) -> (r: Result<
    Vec<u8>,
    PoolError,
>)
    requires
        off + len <= old(s).contents().len(),
        off + len <= usize::MAX,
    ensures
        final(s).contents() == old(s).contents(),
        r matches Ok(v) ==> v@ == old(s).contents().subrange(off as int, off + len),
        r matches Err(e) ==> e == PoolError::Io,
{
    let mut out: Vec<u8> = Vec::new();
    proof {
        assert(out@ =~= old(s).contents().subrange(off as int, off as int));
    }
    while out.len() < len
        invariant
            out@.len() <= len,
            off + len <= usize::MAX,
            off + len <= s.contents().len(),
            s.contents() == old(s).contents(),
            out@ == old(s).contents().subrange(off as int, off + out@.len()),
        decreases len - out@.len(),
    {
        let done = out.len();
        let mut chunk = crate::region::zero_vec(len - done);
        let n = match s.read_at(off + done, &mut chunk) {
            Ok(n) => n,
            Err(e) => {
                return Err(e);
            },
        };
        let mut i: usize = 0;
        while i < n
            invariant
                i <= n,
                n <= chunk@.len(),
                off + len <= s.contents().len(),
                s.contents() == old(s).contents(),
                chunk@.subrange(0, n as int) == s.contents().subrange(
                    off + done,
                    off + done + n,
                ),
                done + chunk@.len() == len,
                out@.len() == done + i,
                out@ == old(s).contents().subrange(off as int, off + done + i),
            decreases n - i,
        {
            let b = chunk[i];
            proof {
                assert(chunk@.subrange(0, n as int)[i as int] == chunk@[i as int]);
                assert(s.contents().subrange(off + done, off + done + n)[i as int]
                    == s.contents()[off + done + i]);
                assert(old(s).contents().subrange(off as int, off + done + i + 1) =~= old(
                    s,
                ).contents().subrange(off as int, off + done + i).push(
                    old(s).contents()[off + done + i],
                ));
            }
            out.push(b);
            i = i + 1;
        }
    }
    proof {
        assert(out@ =~= old(s).contents().subrange(off as int, off + len));
    }
    Ok(out)
}

/// Writes all of `data` starting at `off`, retrying short writes until the
/// whole buffer is on the store. On success the store holds exactly what a
/// single full write would have left; on a hard failure some prefix of
/// `data` has been written and the rest of the store is untouched.
pub fn write_exact_at<S: Storage>(s: &mut S, off: usize, data: &[u8]) -> (r: Result<
    (),
    PoolError,
>)
    requires
        off + data@.len() <= old(s).contents().len(),
        off + data@.len() <= usize::MAX,
    ensures
        final(s).contents().len() == old(s).contents().len(),
        r matches Ok(()) ==> final(s).contents() == spec_splice(
            old(s).contents(),
            off as int,
            data@,
        ),
        r matches Err(e) ==> e == PoolError::Io && (exists|k: int|
            0 <= k <= data@.len() && final(s).contents() == spec_splice(
                old(s).contents(),
                off as int,
                data@.subrange(0, k),
            )),
{
    let mut done: usize = 0;
    proof {
        assert(s.contents() =~= spec_splice(old(s).contents(), off as int, data@.subrange(0, 0)));
    }
    while done < data.len()
        invariant
            done <= data@.len(),
            off + data@.len() <= usize::MAX,
            off + data@.len() <= old(s).contents().len(),
            s.contents().len() == old(s).contents().len(),
            s.contents() == spec_splice(old(s).contents(), off as int, data@.subrange(
                0,
                done as int,
            )),
        decreases data@.len() - done,
    {
        let chunk = &data[done..data.len()];
        let ghost pre = s.contents();
        let n = match s.write_at(off + done, chunk) {
            Ok(n) => n,
            Err(e) => {
                return Err(e);
            },
        };
        proof {
            assert(spec_splice(pre, off + done, chunk@.subrange(0, n as int)) =~= spec_splice(
                old(s).contents(),
                off as int,
                data@.subrange(0, done + n),
            ));
        }
        done = done + n;
    }
    proof {
        assert(data@.subrange(0, data@.len() as int) =~= data@);
    }
    Ok(())
}

/// An in-memory storage: a byte vector behind the `Storage` contract. A
/// transfer moves at most `max_transfer` bytes, so a small bound simulates a
/// storage layer that returns short reads and writes; zero is treated as
/// one.
pub struct MemStorage {
    bytes: Vec<u8>,
    max_transfer: usize,
}

impl MemStorage {
    /// The configured transfer bound.
    pub closed spec fn spec_max_transfer(&self) -> usize {
        self.max_transfer
    }

    /// How many bytes a single transfer moves at most: the configured bound,
    /// with zero treated as one.
    pub open spec fn spec_transfer_cap(&self) -> usize {
        if self.spec_max_transfer() == 0 {
            1
        } else {
            self.spec_max_transfer()
        }
    }

    /// An empty store whose single transfers move at most `max_transfer`
    /// bytes.
    pub fn new(max_transfer: usize) -> (r: MemStorage)
        ensures
            r.contents() == Seq::<u8>::empty(),
            r.spec_max_transfer() == max_transfer,
    {
        MemStorage { bytes: Vec::new(), max_transfer }
    }

    /// A store holding `bytes`, with unbounded single transfers.
    pub fn from_bytes(bytes: Vec<u8>) -> (r: MemStorage)
        ensures
            r.contents() == bytes@,
            r.spec_max_transfer() == usize::MAX,
    {
        MemStorage { bytes, max_transfer: usize::MAX }
    }

    /// A store holding `bytes` whose single transfers move at most
    /// `max_transfer` bytes.
    pub fn from_bytes_bounded(bytes: Vec<u8>, max_transfer: usize) -> (r: MemStorage)
        ensures
            r.contents() == bytes@,
            r.spec_max_transfer() == max_transfer,
    {
        MemStorage { bytes, max_transfer }
    }

    /// The stored bytes, surrendered.
    pub fn into_bytes(self) -> (r: Vec<u8>)
        ensures
            r@ == self.contents(),
    {
        self.bytes
    }

    /// Read access to the stored bytes.
    pub fn bytes(&self) -> (r: &Vec<u8>)
        ensures
            r@ == self.contents(),
    {
        &self.bytes
    }

    /// The size of a single transfer: at most `want`, at most the transfer
    /// cap, and at least one byte when anything is wanted.
    fn step(&self, want: usize) -> (r: usize)
        ensures
            r <= want,
            r <= self.spec_transfer_cap(),
            want > 0 ==> 1 <= r,
    {
        let cap = if self.max_transfer == 0 {
            1
        } else {
            self.max_transfer
        };
        if want < cap {
            want
        } else {
            if cap < want {
                cap
            } else {
                want
            }
        }
    }
}

impl Storage for MemStorage {
    closed spec fn contents(&self) -> Seq<u8> {
        self.bytes@
    }

    fn size(&self) -> (r: usize) {
        self.bytes.len()
    }

    fn grow_to(&mut self, new_size: usize) -> (r: Result<(), PoolError>) {
        let ghost pre = self.bytes@;
        while self.bytes.len() < new_size
            invariant
                pre.len() <= self.bytes@.len(),
                self.bytes@.len() <= new_size,
                self.bytes@ == pre + Seq::new(
                    (self.bytes@.len() - pre.len()) as nat,
                    |i: int| 0u8,
                ),
            decreases new_size - self.bytes@.len(),
        {
            self.bytes.push(0u8);
            proof {
                assert(self.bytes@ =~= pre + Seq::new(
                    (self.bytes@.len() - pre.len()) as nat,
                    |i: int| 0u8,
                ));
            }
        }
        Ok(())
    }

    fn read_at(&mut self, off: usize, buf: &mut Vec<u8>) -> (r: Result<usize, PoolError>)
        ensures
            r matches Ok(n) ==> n <= old(self).spec_transfer_cap(),
    {
        let n = self.step(buf.len());
        proof {
            assert(self.bytes@.len() == self.bytes.len());
        }
        let mut i: usize = 0;
        while i < n
            invariant
                i <= n,
                n <= buf@.len(),
                buf@.len() == old(buf)@.len(),
                off + buf@.len() <= self.bytes@.len(),
                self.bytes@.len() <= usize::MAX,
                self == old(self),
                forall|j: int| 0 <= j < i ==> buf@[j] == self.bytes@[off + j],
            decreases n - i,
        {
            let b = self.bytes[off + i];
            buf.set(i, b);
            i = i + 1;
        }
        proof {
            assert(buf@.subrange(0, n as int) =~= self.bytes@.subrange(off as int, off + n));
        }
        Ok(n)
    }

    fn write_at(&mut self, off: usize, data: &[u8]) -> (r: Result<usize, PoolError>)
        ensures
            r matches Ok(n) ==> n <= old(self).spec_transfer_cap(),
    {
        let n = self.step(data.len());
        proof {
            assert(self.bytes@.len() == self.bytes.len());
        }
        let ghost pre = self.bytes@;
        let mut i: usize = 0;
        while i < n
            invariant
                i <= n,
                n <= data@.len(),
                off + data@.len() <= self.bytes@.len(),
                self.bytes@.len() <= usize::MAX,
                self.bytes@.len() == pre.len(),
                self.max_transfer == old(self).max_transfer,
                forall|j: int| 0 <= j < i ==> self.bytes@[off + j] == data@[j],
                forall|j: int|
                    0 <= j < pre.len() && !(off <= j < off + i) ==> self.bytes@[j] == pre[j],
            decreases n - i,
        {
            let b = data[i];
            self.bytes.set(off + i, b);
            i = i + 1;
        }
        proof {
            assert(self.bytes@ =~= spec_splice(pre, off as int, data@.subrange(0, n as int)));
        }
        Ok(n)
    }

    fn sync(&mut self) -> (r: Result<(), PoolError>) {
        Ok(())
    }
}

} // verus!
