//! The one-page metadata header: explicit field-by-field binary encode and
//! decode at fixed little-endian offsets, plus validation against the
//! compiled format constants and the caller's expected user version.
//!
//! Layout (byte offsets within the 4096-byte page):
//! 0..32 checksum, 32..40 magic, 40..48 version, 48..52 monotonic seconds,
//! 52..56 wall-clock seconds, 56..64 monotonic nanoseconds, 64..72
//! wall-clock nanoseconds, 72..80 user version, 80..88 options, 88..4096
//! zero padding.

use vstd::prelude::*;
use vstd::bytes::{
    lemma_auto_spec_u32_to_from_le_bytes, lemma_auto_spec_u64_to_from_le_bytes,
    spec_u32_from_le_bytes, spec_u32_to_le_bytes, spec_u64_from_le_bytes, spec_u64_to_le_bytes,
    u32_from_le_bytes, u32_to_le_bytes, u64_from_le_bytes, u64_to_le_bytes,
};
use vstd::slice::slice_to_vec;

use crate::clock::Timestamps;
use crate::errors::PoolError;
use crate::layout::{FORMAT_VERSION, HEADER_SIZE, MAGIC};
use crate::region::{append_bytes, zero_vec};

verus! {

/// Number of bytes of the stored digest.
pub const CHECKSUM_SIZE: usize = 32;

/// `n` zero bytes.
pub open spec fn spec_zero_bytes(n: nat) -> Seq<u8> {
    Seq::new(n, |i: int| 0u8)
}

/// The mathematical content of a header: what each field holds.
pub struct HeaderV {
    pub checksum: Seq<u8>,
    pub magic: u64,
    pub version: u64,
    pub time_monotonic_s: u32,
    pub time_unix_s: u32,
    pub time_monotonic_ns: u64,
    pub time_unix_ns: u64,
    pub user_version: u64,
    pub options: u64,
}

/// A header's checksum field holds exactly one digest.
pub open spec fn spec_header_wf(h: HeaderV) -> bool {
    h.checksum.len() == CHECKSUM_SIZE
}

/// `h` with its checksum field replaced by `c`.
pub open spec fn spec_with_checksum(h: HeaderV, c: Seq<u8>) -> HeaderV {
    HeaderV { checksum: c, ..h }
}

/// The exact 4096-byte encoding of a header: each field in little-endian
/// order at its documented offset, padded with zeros to a full page.
pub open spec fn spec_header_bytes(h: HeaderV) -> Seq<u8> {
    h.checksum + spec_u64_to_le_bytes(h.magic) + spec_u64_to_le_bytes(h.version)
        + spec_u32_to_le_bytes(h.time_monotonic_s) + spec_u32_to_le_bytes(h.time_unix_s)
        + spec_u64_to_le_bytes(h.time_monotonic_ns) + spec_u64_to_le_bytes(h.time_unix_ns)
        + spec_u64_to_le_bytes(h.user_version) + spec_u64_to_le_bytes(h.options)
        + spec_zero_bytes((HEADER_SIZE - 88) as nat)
}

/// The fields stored in an encoded header page.
pub open spec fn spec_decode(bytes: Seq<u8>) -> HeaderV
    recommends
        bytes.len() == HEADER_SIZE,
{
    HeaderV {
        checksum: bytes.subrange(0, 32),
        magic: spec_u64_from_le_bytes(bytes.subrange(32, 40)),
        version: spec_u64_from_le_bytes(bytes.subrange(40, 48)),
        time_monotonic_s: spec_u32_from_le_bytes(bytes.subrange(48, 52)),
        time_unix_s: spec_u32_from_le_bytes(bytes.subrange(52, 56)),
        time_monotonic_ns: spec_u64_from_le_bytes(bytes.subrange(56, 64)),
        time_unix_ns: spec_u64_from_le_bytes(bytes.subrange(64, 72)),
        user_version: spec_u64_from_le_bytes(bytes.subrange(72, 80)),
        options: spec_u64_from_le_bytes(bytes.subrange(80, 88)),
    }
}

/// A well-formed header encodes to exactly one page.
pub proof fn lemma_header_bytes_len(h: HeaderV)
    requires
        spec_header_wf(h),
    ensures
        spec_header_bytes(h).len() == HEADER_SIZE,
{
    lemma_auto_spec_u64_to_from_le_bytes();
    lemma_auto_spec_u32_to_from_le_bytes();
}

/// Decoding an encoded well-formed header yields the header back: the codec
/// loses nothing.
pub proof fn lemma_decode_of_encode(h: HeaderV)
    requires
        spec_header_wf(h),
    ensures
        spec_decode(spec_header_bytes(h)) == h,
{
    lemma_auto_spec_u64_to_from_le_bytes();
    lemma_auto_spec_u32_to_from_le_bytes();
    let s = spec_header_bytes(h);
    assert(s.subrange(0, 32) =~= h.checksum);
    assert(s.subrange(32, 40) =~= spec_u64_to_le_bytes(h.magic));
    assert(s.subrange(40, 48) =~= spec_u64_to_le_bytes(h.version));
    assert(s.subrange(48, 52) =~= spec_u32_to_le_bytes(h.time_monotonic_s));
    assert(s.subrange(52, 56) =~= spec_u32_to_le_bytes(h.time_unix_s));
    assert(s.subrange(56, 64) =~= spec_u64_to_le_bytes(h.time_monotonic_ns));
    assert(s.subrange(64, 72) =~= spec_u64_to_le_bytes(h.time_unix_ns));
    assert(s.subrange(72, 80) =~= spec_u64_to_le_bytes(h.user_version));
    assert(s.subrange(80, 88) =~= spec_u64_to_le_bytes(h.options));
}

/// The encoding is the checksum field followed by a tail that does not
/// depend on the checksum: replacing the checksum replaces exactly the
/// first 32 bytes.
pub proof fn lemma_checksum_replacement(h: HeaderV, c: Seq<u8>)
    requires
        spec_header_wf(h),
        c.len() == CHECKSUM_SIZE,
    ensures
        spec_header_bytes(spec_with_checksum(h, c)) == c + spec_header_bytes(h).subrange(
            32,
            HEADER_SIZE as int,
        ),
{
    lemma_auto_spec_u64_to_from_le_bytes();
    lemma_auto_spec_u32_to_from_le_bytes();
    assert(spec_header_bytes(spec_with_checksum(h, c)) =~= c + spec_header_bytes(h).subrange(
        32,
        HEADER_SIZE as int,
    ));
}

/// The in-memory header record. Its view is the `HeaderV` of its fields.
pub struct Header {
    checksum: Vec<u8>,
    magic: u64,
    version: u64,
    time_monotonic_s: u32,
    time_unix_s: u32,
    time_monotonic_ns: u64,
    time_unix_ns: u64,
    user_version: u64,
    options: u64,
}

impl View for Header {
    type V = HeaderV;

    closed spec fn view(&self) -> HeaderV {
        HeaderV {
            checksum: self.checksum@,
            magic: self.magic,
            version: self.version,
            time_monotonic_s: self.time_monotonic_s,
            time_unix_s: self.time_unix_s,
            time_monotonic_ns: self.time_monotonic_ns,
            time_unix_ns: self.time_unix_ns,
            user_version: self.user_version,
            options: self.options,
        }
    }
}

/// The content of a freshly constructed header: correct magic and version,
/// the given clock readings and user version, a zeroed checksum, zero
/// options.
pub open spec fn spec_fresh_header(user_version: u64, t: Timestamps) -> HeaderV {
    HeaderV {
        checksum: spec_zero_bytes(CHECKSUM_SIZE as nat),
        magic: MAGIC,
        version: FORMAT_VERSION,
        time_monotonic_s: t.monotonic_s,
        time_unix_s: t.unix_s,
        time_monotonic_ns: t.monotonic_ns,
        time_unix_ns: t.unix_ns,
        user_version: user_version,
        options: 0,
    }
}

/// Whether a header passes validation against the compiled format and the
/// caller's expected user version, and the exact failure when it does not.
pub open spec fn spec_validate(h: HeaderV, expected_user_version: u64) -> Result<(), PoolError> {
    if h.magic != MAGIC {
        Err(PoolError::FormatMismatch)
    } else if h.version != FORMAT_VERSION {
        Err(PoolError::VersionMismatch)
    } else if h.user_version != expected_user_version {
        Err(PoolError::UserVersionMismatch)
    } else {
        Ok(())
    }
}

impl Header {
    /// The checksum field holds exactly one digest.
    pub open spec fn wf(&self) -> bool {
        spec_header_wf(self@)
    }

    /// A fresh header: zeroed checksum, correct magic and version, the given
    /// clock readings, the given user version, zero options.
    pub fn fresh(user_version: u64, t: Timestamps) -> (h: Header)
        ensures
            h@ == spec_fresh_header(user_version, t),
            h.wf(),
    {
        let h = Header {
            checksum: zero_vec(CHECKSUM_SIZE),
            magic: MAGIC,
            version: FORMAT_VERSION,
            time_monotonic_s: t.monotonic_s,
            time_unix_s: t.unix_s,
            time_monotonic_ns: t.monotonic_ns,
            time_unix_ns: t.unix_ns,
            user_version: user_version,
            options: 0,
        };
        h
    }

    /// The stored digest.
    pub fn checksum(&self) -> (r: &Vec<u8>)
        ensures
            r@ == self@.checksum,
    {
        &self.checksum
    }

    /// Zeroes the checksum field, as done before re-hashing.
    pub fn clear_checksum(&mut self)
        ensures
            final(self)@ == spec_with_checksum(old(self)@, spec_zero_bytes(CHECKSUM_SIZE as nat)),
            final(self).wf(),
    {
        self.checksum = zero_vec(CHECKSUM_SIZE);
    }

    /// Stores a freshly computed digest in the checksum field.
    pub fn set_checksum(&mut self, digest: Vec<u8>)
        requires
            digest@.len() == CHECKSUM_SIZE,
        ensures
            final(self)@ == spec_with_checksum(old(self)@, digest@),
            final(self).wf(),
    {
        self.checksum = digest;
    }

    /// Serializes the header into its exact one-page byte encoding,
    /// independent of host byte order and alignment.
    pub fn encode(&self) -> (r: Vec<u8>)
        requires
            self.wf(),
        ensures
            r@ == spec_header_bytes(self@),
            r@.len() == HEADER_SIZE,
    {
        proof {
            lemma_auto_spec_u64_to_from_le_bytes();
            lemma_auto_spec_u32_to_from_le_bytes();
            lemma_header_bytes_len(self@);
        }
        let mut out: Vec<u8> = Vec::new();
        append_bytes(&mut out, self.checksum.as_slice());
        let magic = u64_to_le_bytes(self.magic);
        append_bytes(&mut out, magic.as_slice());
        let version = u64_to_le_bytes(self.version);
        append_bytes(&mut out, version.as_slice());
        let tms = u32_to_le_bytes(self.time_monotonic_s);
        append_bytes(&mut out, tms.as_slice());
        let tus = u32_to_le_bytes(self.time_unix_s);
        append_bytes(&mut out, tus.as_slice());
        let tmn = u64_to_le_bytes(self.time_monotonic_ns);
        append_bytes(&mut out, tmn.as_slice());
        let tun = u64_to_le_bytes(self.time_unix_ns);
        append_bytes(&mut out, tun.as_slice());
        let uv = u64_to_le_bytes(self.user_version);
        append_bytes(&mut out, uv.as_slice());
        let opts = u64_to_le_bytes(self.options);
        append_bytes(&mut out, opts.as_slice());
        let pad = zero_vec(HEADER_SIZE - 88);
        append_bytes(&mut out, pad.as_slice());
        proof {
            assert(out@ =~= spec_header_bytes(self@));
        }
        out
    }

    /// Deserializes a header from a one-page byte encoding, reading each
    /// field from its documented offset.
    pub fn decode(page: &[u8]) -> (h: Header)
        requires
            page@.len() == HEADER_SIZE,
        ensures
            h@ == spec_decode(page@),
            h.wf(),
    {
        let checksum = slice_to_vec(&page[0..32]);
        let magic = u64_from_le_bytes(&page[32..40]);
        let version = u64_from_le_bytes(&page[40..48]);
        let time_monotonic_s = u32_from_le_bytes(&page[48..52]);
        let time_unix_s = u32_from_le_bytes(&page[52..56]);
        let time_monotonic_ns = u64_from_le_bytes(&page[56..64]);
        let time_unix_ns = u64_from_le_bytes(&page[64..72]);
        let user_version = u64_from_le_bytes(&page[72..80]);
        let options = u64_from_le_bytes(&page[80..88]);
        Header {
            checksum,
            magic,
            version,
            time_monotonic_s,
            time_unix_s,
            time_monotonic_ns,
            time_unix_ns,
            user_version,
            options,
        }
    }

    /// Validates magic, format version and user version, in that order, and
    /// names the first mismatch.
    pub fn validate(&self, expected_user_version: u64) -> (r: Result<(), PoolError>)
        ensures
            r == spec_validate(self@, expected_user_version),
    {
        if self.magic != MAGIC {
            Err(PoolError::FormatMismatch)
        } else if self.version != FORMAT_VERSION {
            Err(PoolError::VersionMismatch)
        } else if self.user_version != expected_user_version {
            Err(PoolError::UserVersionMismatch)
        } else {
            Ok(())
        }
    }

    /// The stored user version.
    pub fn user_version(&self) -> (r: u64)
        ensures
            r == self@.user_version,
    {
        self.user_version
    }
}

} // verus!
