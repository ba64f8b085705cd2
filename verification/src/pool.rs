//! The persistent data pool: creates or opens a checksummed, versioned
//! backing store and exposes its validated content as a raw memory region;
//! `flush` makes the current content durable again.

use vstd::prelude::*;
use vstd::slice::slice_to_vec;

use crate::checksum::{bytes_equal, compute_digest, digest_of};
use crate::clock::{instant_now, sample_timestamps, Timestamps};
use crate::contract::DataPool;
use crate::errors::PoolError;
use crate::header::{
    spec_decode, spec_fresh_header, spec_header_bytes, spec_validate, spec_with_checksum,
    spec_zero_bytes, Header, HeaderV, CHECKSUM_SIZE,
};
use crate::layout::{spec_round_to_page, spec_total_size, total_size, HEADER_SIZE, PAGE_SIZE};
use crate::region::{append_bytes, zero_vec, RawRegion};
use crate::storage::{read_exact_at, spec_splice, write_exact_at, Storage};

verus! {

/// The data region as it lies on the backing store: the live bytes padded
/// with zeros to a whole number of pages.
pub open spec fn spec_padded_data(data: Seq<u8>) -> Seq<u8> {
    data + spec_zero_bytes((spec_round_to_page(data.len()) - data.len()) as nat)
}

/// The header of a stored file image.
pub open spec fn spec_file_header(file: Seq<u8>) -> HeaderV {
    spec_decode(file.subrange(0, HEADER_SIZE as int))
}

/// The file's header page with its checksum field zeroed: the first part of
/// the byte stream the digest covers.
pub open spec fn spec_zeroed_file_header(file: Seq<u8>) -> Seq<u8> {
    spec_zero_bytes(CHECKSUM_SIZE as nat) + file.subrange(CHECKSUM_SIZE as int, HEADER_SIZE as int)
}

/// Whether the stored checksum is the true digest of the zero-checksum
/// header followed by the stored data region.
pub open spec fn spec_checksum_ok(file: Seq<u8>) -> bool {
    file.subrange(0, CHECKSUM_SIZE as int) == digest_of(
        spec_zeroed_file_header(file) + file.subrange(HEADER_SIZE as int, file.len() as int),
    )
}

/// What opening a stored file image with the given expected data size and
/// user version yields: the loaded data region, or the exact failure, with
/// the size gate first, then magic, format version and user version in
/// validation order, then the checksum.
pub open spec fn spec_open_outcome(
    file: Seq<u8>,
    data_size: nat,
    expected_user_version: u64,
) -> Result<Seq<u8>, PoolError> {
    if file.len() != spec_total_size(data_size) {
        Err(PoolError::SizeMismatch)
    } else {
        match spec_validate(spec_file_header(file), expected_user_version) {
            Err(e) => Err(e),
            Ok(()) => if !spec_checksum_ok(file) {
                Err(PoolError::ChecksumMismatch)
            } else {
                Ok(file.subrange(HEADER_SIZE as int, HEADER_SIZE + data_size))
            },
        }
    }
}

/// The file image a flush of `data` stamped with `user_version` at time `t`
/// leaves on the backing store: a fresh header whose checksum is the digest
/// of the zero-checksum header followed by the padded data, then that data.
pub open spec fn spec_flush_image(data: Seq<u8>, user_version: u64, t: Timestamps) -> Seq<u8> {
    let h0 = spec_fresh_header(user_version, t);
    let digest = digest_of(spec_header_bytes(h0) + spec_padded_data(data));
    spec_header_bytes(spec_with_checksum(h0, digest)) + spec_padded_data(data)
}

/// A pool backed by a storage: exclusively owns the backing store and the
/// raw memory region holding the live content. Its view is the live content.
pub struct PersistentPool<S: Storage> {
    storage: S,
    region: RawRegion,
    user_version: u64,
    clock_base: std::time::Instant,
}

impl<S: Storage> View for PersistentPool<S> {
    type V = Seq<u8>;

    closed spec fn view(&self) -> Seq<u8> {
        self.region@
    }
}

impl<S: Storage> PersistentPool<S> {
    /// The bytes currently on the backing store.
    pub closed spec fn storage_contents(&self) -> Seq<u8> {
        self.storage.contents()
    }

    /// The user version this pool stamps into and expects from headers.
    pub closed spec fn spec_user_version(&self) -> u64 {
        self.user_version
    }

    /// The backing store's size always matches the page-rounded layout for
    /// the live region's size, and the sizes stay within machine bounds.
    pub open spec fn wf(&self) -> bool {
        &&& self.storage_contents().len() == spec_total_size(self@.len())
        &&& self@.len() + 2 * (PAGE_SIZE as int) <= usize::MAX as int
    }

    /// The user version this pool was constructed with.
    pub fn user_version(&self) -> (r: u64)
        ensures
            r == self.spec_user_version(),
    {
        self.user_version
    }

    /// Gives up the pool and hands back the backing store.
    pub fn into_storage(self) -> (r: S)
        ensures
            r.contents() == self.storage_contents(),
    {
        self.storage
    }

    /// Read access to the backing store.
    pub fn storage(&self) -> (r: &S)
        ensures
            r.contents() == self.storage_contents(),
    {
        &self.storage
    }

    /// Creates a fresh pool on an empty backing store: grows it to the
    /// page-rounded total size, zero-fills every page (each write retried
    /// until the page is complete), issues a durability barrier, and pairs
    /// it with a zeroed region. The header stays all-zero until the first
    /// flush.
    pub fn create(storage: S, data_size: usize, user_version: u64) -> (r: Result<
        PersistentPool<S>,
        PoolError,
    >)
        requires
            storage.contents().len() == 0,
            data_size + 2 * PAGE_SIZE <= usize::MAX,
        ensures
            r matches Ok(p) ==> {
                &&& p.wf()
                &&& p@ == spec_zero_bytes(data_size as nat)
                &&& p.spec_user_version() == user_version
                &&& p.storage_contents() == spec_zero_bytes(spec_total_size(data_size as nat))
            },
            r matches Err(e) ==> e == PoolError::Io,
    {
        let total = total_size(data_size);
        let mut storage = storage;
        match storage.grow_to(total) {
            Ok(()) => {},
            Err(e) => {
                return Err(e);
            },
        }
        proof {
            assert(storage.contents() =~= spec_zero_bytes(total as nat));
        }
        let page = zero_vec(PAGE_SIZE);
        let mut off: usize = 0;
        while off <= total - PAGE_SIZE
            invariant
                off <= total,
                total >= PAGE_SIZE,
                total <= usize::MAX,
                total == spec_total_size(data_size as nat),
                page@ == spec_zero_bytes(PAGE_SIZE as nat),
                storage.contents() == spec_zero_bytes(total as nat),
            decreases total - off,
        {
            match write_exact_at(&mut storage, off, page.as_slice()) {
                Ok(()) => {},
                Err(e) => {
                    return Err(e);
                },
            }
            proof {
                assert(storage.contents() =~= spec_zero_bytes(total as nat));
            }
            off = off + PAGE_SIZE;
        }
        match storage.sync() {
            Ok(()) => {},
            Err(e) => {
                return Err(e);
            },
        }
        let region = RawRegion::new_zeroed(data_size);
        let clock_base = instant_now();
        Ok(PersistentPool { storage, region, user_version, clock_base })
    }

    /// Opens an existing backing store: checks its size against the layout
    /// computed from `data_size`, reads and validates the header page, reads
    /// the data region page-granularly (each read retried until complete),
    /// recomputes the digest over the zero-checksum header and the data in
    /// read order, and loads the data into a fresh region only when the
    /// digest matches the stored checksum. The result, error or pool, is
    /// exactly what the stored image determines, unless the storage layer
    /// itself fails.
    #[verifier::loop_isolation(false)]
    pub fn open(storage: S, data_size: usize, expected_user_version: u64) -> (r: Result<
        PersistentPool<S>,
        PoolError,
    >)
        requires
            data_size + 2 * PAGE_SIZE <= usize::MAX,
        ensures
            r matches Ok(p) ==> {
                &&& spec_open_outcome(storage.contents(), data_size as nat, expected_user_version)
                    == Ok::<Seq<u8>, PoolError>(p@)
                &&& p.wf()
                &&& p@.len() == data_size
                &&& p.spec_user_version() == expected_user_version
                &&& p.storage_contents() == storage.contents()
            },
            r matches Err(e) ==> e == PoolError::Io || spec_open_outcome(
                storage.contents(),
                data_size as nat,
                expected_user_version,
            ) == Err::<Seq<u8>, PoolError>(e),
            storage.contents().len() != spec_total_size(data_size as nat) ==> (r matches Err(e)
                && e == PoolError::SizeMismatch),
    {
        let total = total_size(data_size);
        let mut storage = storage;
        if storage.size() != total {
            return Err(PoolError::SizeMismatch);
        }
        let page = match read_exact_at(&mut storage, 0, HEADER_SIZE) {
            Ok(v) => v,
            Err(e) => {
                return Err(e);
            },
        };
        let header = Header::decode(page.as_slice());
        proof {
            assert(page@ =~= storage.contents().subrange(0, HEADER_SIZE as int));
        }
        match header.validate(expected_user_version) {
            Ok(()) => {},
            Err(e) => {
                return Err(e);
            },
        }
        let body_len = total - HEADER_SIZE;
        let ghost c0 = storage.contents();
        let mut body: Vec<u8> = Vec::new();
        proof {
            assert(body@ =~= c0.subrange(HEADER_SIZE as int, HEADER_SIZE as int));
        }
        while body.len() < body_len
            invariant
                body@.len() <= body_len,
                HEADER_SIZE + body_len <= usize::MAX,
                HEADER_SIZE + body_len == c0.len(),
                c0.len() == spec_total_size(data_size as nat),
                storage.contents() == c0,
                body@ == c0.subrange(HEADER_SIZE as int, HEADER_SIZE + body@.len()),
            decreases body_len - body@.len(),
        {
            let done = body.len();
            let remaining = body_len - done;
            let chunk_len = if remaining < PAGE_SIZE {
                remaining
            } else {
                PAGE_SIZE
            };
            let chunk = match read_exact_at(&mut storage, HEADER_SIZE + done, chunk_len) {
                Ok(v) => v,
                Err(e) => {
                    return Err(e);
                },
            };
            append_bytes(&mut body, chunk.as_slice());
            proof {
                assert(body@ =~= c0.subrange(HEADER_SIZE as int, HEADER_SIZE + body@.len()));
            }
        }
        let mut input = zero_vec(CHECKSUM_SIZE);
        let page_slice = page.as_slice();
        append_bytes(&mut input, &page_slice[CHECKSUM_SIZE..HEADER_SIZE]);
        append_bytes(&mut input, body.as_slice());
        proof {
            assert(input@ =~= spec_zeroed_file_header(storage.contents()) + storage.contents()
                .subrange(HEADER_SIZE as int, storage.contents().len() as int));
        }
        let digest = compute_digest(&input);
        if !bytes_equal(digest.as_slice(), header.checksum().as_slice()) {
            proof {
                assert(header@.checksum =~= storage.contents().subrange(0, CHECKSUM_SIZE as int));
            }
            return Err(PoolError::ChecksumMismatch);
        }
        proof {
            assert(header@.checksum =~= storage.contents().subrange(0, CHECKSUM_SIZE as int));
        }
        let mut data = body;
        data.truncate(data_size);
        proof {
            assert(data@ =~= storage.contents().subrange(
                HEADER_SIZE as int,
                HEADER_SIZE + data_size,
            ));
        }
        let region = RawRegion::from_bytes(data);
        let clock_base = instant_now();
        Ok(PersistentPool { storage, region, user_version: expected_user_version, clock_base })
    }

    /// Opens the backing when it already holds a pool, else creates a fresh
    /// one. `backing_exists` is the caller's existence test for the backing.
    pub fn determine(storage: S, backing_exists: bool, data_size: usize, user_version: u64) -> (r:
        Result<PersistentPool<S>, PoolError>)
        requires
            !backing_exists ==> storage.contents().len() == 0,
            data_size + 2 * PAGE_SIZE <= usize::MAX,
        ensures
            r matches Ok(p) ==> {
                &&& p.wf()
                &&& p@.len() == data_size
                &&& p.spec_user_version() == user_version
            },
            backing_exists ==> {
                &&& (r matches Ok(p) ==> spec_open_outcome(
                    storage.contents(),
                    data_size as nat,
                    user_version,
                ) == Ok::<Seq<u8>, PoolError>(p@))
                &&& (r matches Err(e) ==> e == PoolError::Io || spec_open_outcome(
                    storage.contents(),
                    data_size as nat,
                    user_version,
                ) == Err::<Seq<u8>, PoolError>(e))
                &&& (storage.contents().len() != spec_total_size(data_size as nat) ==> (r matches
                    Err(e)
                    && e == PoolError::SizeMismatch))
            },
            !backing_exists ==> {
                &&& (r matches Ok(p) ==> p@ == spec_zero_bytes(data_size as nat)
                    && p.storage_contents() == spec_zero_bytes(spec_total_size(data_size as nat)))
                &&& (r matches Err(e) ==> e == PoolError::Io)
            },
    {
        if backing_exists {
            match Self::open(storage, data_size, user_version) {
                Ok(p) => {
                    proof {
                        assert(spec_zero_bytes(data_size as nat).len() == data_size);
                    }
                    Ok(p)
                },
                Err(e) => Err(e),
            }
        } else {
            match Self::create(storage, data_size, user_version) {
                Ok(p) => {
                    proof {
                        assert(spec_zero_bytes(data_size as nat).len() == data_size);
                    }
                    Ok(p)
                },
                Err(e) => Err(e),
            }
        }
    }

    /// Flushes the live content with the given clock readings stamped into
    /// the fresh header: hashes the zero-checksum header and the padded data
    /// in write order, writes the data region page-granularly (each write
    /// retried until complete), then the completed header, then issues a
    /// durability barrier. On success the backing holds exactly the image
    /// those readings determine; on failure the live content is untouched
    /// and the backing keeps its size.
    pub fn flush_at(&mut self, t: Timestamps) -> (r: Result<(), PoolError>)
        requires
            old(self).wf(),
        ensures
            final(self).wf(),
            final(self)@ == old(self)@,
            final(self).spec_user_version() == old(self).spec_user_version(),
            r matches Ok(()) ==> final(self).storage_contents() == spec_flush_image(
                old(self)@,
                old(self).spec_user_version(),
                t,
            ),
            r matches Ok(()) ==> spec_open_outcome(
                final(self).storage_contents(),
                old(self)@.len(),
                old(self).spec_user_version(),
            ) == Ok::<Seq<u8>, PoolError>(old(self)@),
            r matches Err(e) ==> e == PoolError::Io,
    {
        let data_size = self.region.len();
        let total = total_size(data_size);
        let mut header = Header::fresh(self.user_version, t);
        let mut body = slice_to_vec(self.region.as_slice());
        let pad = zero_vec(total - HEADER_SIZE - data_size);
        append_bytes(&mut body, pad.as_slice());
        proof {
            assert(body@ =~= spec_padded_data(self.region@));
        }
        let mut input = header.encode();
        append_bytes(&mut input, body.as_slice());
        let digest = compute_digest(&input);
        header.set_checksum(digest);
        let ghost h0 = spec_fresh_header(self.user_version, t);
        proof {
            assert(input@ =~= spec_header_bytes(h0) + spec_padded_data(self.region@));
        }
        let ghost c0 = self.storage.contents();
        let ghost region0 = self.region;
        let ghost user_version0 = self.user_version;
        let ghost clock_base0 = self.clock_base;
        let body_len = body.len();
        let mut off: usize = 0;
        proof {
            assert(self.storage.contents() =~= spec_splice(c0, HEADER_SIZE as int, body@.take(0)));
        }
        while off < body_len
            invariant
                off <= body_len,
                body_len == body@.len(),
                HEADER_SIZE + body_len <= usize::MAX,
                HEADER_SIZE + body_len == c0.len(),
                self.region == region0,
                self.user_version == user_version0,
                self.clock_base == clock_base0,
                region0 == old(self).region,
                user_version0 == old(self).user_version,
                c0.len() == spec_total_size(region0@.len()),
                region0@.len() + 2 * (PAGE_SIZE as int) <= usize::MAX as int,
                self.storage.contents() == spec_splice(c0, HEADER_SIZE as int, body@.take(
                    off as int,
                )),
            decreases body_len - off,
        {
            let remaining = body_len - off;
            let chunk_len = if remaining < PAGE_SIZE {
                remaining
            } else {
                PAGE_SIZE
            };
            let body_slice = body.as_slice();
            match write_exact_at(
                &mut self.storage,
                HEADER_SIZE + off,
                &body_slice[off..off + chunk_len],
            ) {
                Ok(()) => {},
                Err(e) => {
                    return Err(e);
                },
            }
            proof {
                assert(self.storage.contents() =~= spec_splice(c0, HEADER_SIZE as int, body@.take(
                    off + chunk_len,
                )));
            }
            off = off + chunk_len;
        }
        proof {
            assert(body@.take(body_len as int) =~= body@);
            assert(self.storage.contents() =~= spec_splice(c0, HEADER_SIZE as int, body@));
        }
        let hb = header.encode();
        match write_exact_at(&mut self.storage, 0, hb.as_slice()) {
            Ok(()) => {},
            Err(e) => {
                return Err(e);
            },
        }
        match self.storage.sync() {
            Ok(()) => {},
            Err(e) => {
                return Err(e);
            },
        }
        proof {
            assert(self.storage.contents() =~= hb@ + body@);
            assert(spec_header_bytes(h0) + spec_padded_data(old(self)@) =~= input@);
            assert(self.storage.contents() =~= spec_flush_image(
                old(self)@,
                old(self).spec_user_version(),
                t,
            ));
            crate::laws::lemma_flush_open_round_trip(old(self)@, old(self).spec_user_version(), t);
        }
        Ok(())
    }

    /// Flushes the live content, stamping the header with the current
    /// clocks. On success the backing holds the image the sampled readings
    /// determine.
    pub fn flush(&mut self) -> (r: Result<(), PoolError>)
        requires
            old(self).wf(),
        ensures
            final(self).wf(),
            final(self)@ == old(self)@,
            final(self).spec_user_version() == old(self).spec_user_version(),
            r matches Ok(()) ==> exists|t: Timestamps|
                final(self).storage_contents() == spec_flush_image(
                    old(self)@,
                    old(self).spec_user_version(),
                    t,
                ),
            r matches Ok(()) ==> spec_open_outcome(
                final(self).storage_contents(),
                old(self)@.len(),
                old(self).spec_user_version(),
            ) == Ok::<Seq<u8>, PoolError>(old(self)@),
            r matches Err(e) ==> e == PoolError::Io,
    {
        let t = sample_timestamps(&self.clock_base);
        let r = self.flush_at(t);
        proof {
            if r matches Ok(()) {
                assert(self.storage_contents() == spec_flush_image(
                    old(self)@,
                    old(self).spec_user_version(),
                    t,
                ));
            }
        }
        r
    }

    /// The pool's size in bytes.
    pub fn len(&self) -> (r: usize)
        ensures
            r == self@.len(),
    {
        self.region.len()
    }

    /// Read access to the live content.
    pub fn as_slice(&self) -> (r: &[u8])
        ensures
            r@ == self@,
    {
        self.region.as_slice()
    }

    /// Write access to the live content.
    pub fn as_mut_slice(&mut self) -> (r: &mut [u8])
        ensures
            r@ == old(self)@,
            final(self)@ == final(r)@,
            final(self).storage_contents() == old(self).storage_contents(),
            final(self).spec_user_version() == old(self).spec_user_version(),
            final(r)@.len() == old(self)@.len() && old(self).wf() ==> final(self).wf(),
    {
        self.region.as_mut_slice()
    }
}

impl<S: Storage> DataPool for PersistentPool<S> {
    closed spec fn content(&self) -> Seq<u8> {
        self.region@
    }

    open spec fn inv(&self) -> bool {
        self.wf()
    }

    fn len(&self) -> (r: usize) {
        PersistentPool::len(self)
    }

    fn as_slice(&self) -> (r: &[u8]) {
        PersistentPool::as_slice(self)
    }

    fn as_mut_slice(&mut self) -> (r: &mut [u8]) {
        PersistentPool::as_mut_slice(self)
    }

    fn flush(&mut self) -> (r: Result<(), PoolError>) {
        PersistentPool::flush(self)
    }
}

} // verus!
