//! Laws relating flush and open at the file-image level. The digest length
//! hypothesis in each law is what the digest wrapper guarantees at every
//! call: the stored checksum field holds exactly one 32-byte digest.

use vstd::prelude::*;

use crate::checksum::digest_of;
use crate::clock::Timestamps;
use crate::errors::PoolError;
use crate::header::{
    lemma_checksum_replacement, lemma_decode_of_encode, lemma_header_bytes_len, spec_fresh_header,
    spec_header_bytes, spec_header_wf, spec_with_checksum, spec_zero_bytes, CHECKSUM_SIZE,
};
use crate::layout::{lemma_round_to_page_bounds, spec_round_to_page, spec_total_size, HEADER_SIZE};
use crate::pool::{
    spec_checksum_ok, spec_file_header, spec_flush_image, spec_open_outcome, spec_padded_data,
    spec_zeroed_file_header,
};

verus! {

/// The digest stored by a flush of `data` stamped with `user_version` at
/// time `t`: the digest over the zero-checksum fresh header followed by the
/// page-padded data.
pub open spec fn spec_flush_digest(data: Seq<u8>, user_version: u64, t: Timestamps) -> Seq<u8> {
    digest_of(spec_header_bytes(spec_fresh_header(user_version, t)) + spec_padded_data(data))
}

/// Shared facts about a flush image: its exact length, its header, and that
/// its checksum passes verification.
proof fn lemma_flush_image_parts(data: Seq<u8>, user_version: u64, t: Timestamps)
    requires
        spec_flush_digest(data, user_version, t).len() == CHECKSUM_SIZE,
    ensures
        spec_flush_image(data, user_version, t).len() == spec_total_size(data.len()),
        spec_file_header(spec_flush_image(data, user_version, t)) == spec_with_checksum(
            spec_fresh_header(user_version, t),
            spec_flush_digest(data, user_version, t),
        ),
        spec_checksum_ok(spec_flush_image(data, user_version, t)),
        spec_flush_image(data, user_version, t).subrange(
            HEADER_SIZE as int,
            spec_flush_image(data, user_version, t).len() as int,
        ) == spec_padded_data(data),
{
    let h0 = spec_fresh_header(user_version, t);
    let padded = spec_padded_data(data);
    let input = spec_header_bytes(h0) + padded;
    let d = digest_of(input);
    let h1 = spec_with_checksum(h0, d);
    let file = spec_flush_image(data, user_version, t);
    assert(spec_header_wf(h0));
    assert(spec_header_wf(h1));
    lemma_header_bytes_len(h0);
    lemma_header_bytes_len(h1);
    lemma_round_to_page_bounds(data.len());
    assert(padded.len() == spec_round_to_page(data.len()));
    assert(file == spec_header_bytes(h1) + padded);
    assert(file.len() == spec_total_size(data.len()));
    // The header region of the image is the encoded completed header.
    assert(file.subrange(0, HEADER_SIZE as int) =~= spec_header_bytes(h1));
    lemma_decode_of_encode(h1);
    assert(spec_file_header(file) == h1);
    // The data region of the image is the padded data.
    assert(file.subrange(HEADER_SIZE as int, file.len() as int) =~= padded);
    // Zeroing the image's checksum field recovers the zero-checksum header.
    lemma_checksum_replacement(h0, d);
    assert(spec_header_bytes(h0) =~= spec_zero_bytes(CHECKSUM_SIZE as nat) + spec_header_bytes(
        h0,
    ).subrange(CHECKSUM_SIZE as int, HEADER_SIZE as int));
    assert(spec_header_bytes(h1).subrange(CHECKSUM_SIZE as int, HEADER_SIZE as int)
        =~= spec_header_bytes(h0).subrange(CHECKSUM_SIZE as int, HEADER_SIZE as int));
    assert(spec_zeroed_file_header(file) =~= spec_header_bytes(h0));
    // So the digest the checksum check recomputes covers exactly `input`.
    assert(spec_zeroed_file_header(file) + file.subrange(HEADER_SIZE as int, file.len() as int)
        =~= input);
    assert(file.subrange(0, CHECKSUM_SIZE as int) =~= d);
    assert(spec_checksum_ok(file));
}

/// Round trip: opening a flushed image with the data size and user version
/// it was flushed with yields exactly the flushed bytes, whatever the clock
/// read at flush time.
pub proof fn lemma_flush_open_round_trip(data: Seq<u8>, user_version: u64, t: Timestamps)
    requires
        spec_flush_digest(data, user_version, t).len() == CHECKSUM_SIZE,
    ensures
        spec_open_outcome(spec_flush_image(data, user_version, t), data.len(), user_version)
            == Ok::<Seq<u8>, PoolError>(data),
{
    lemma_flush_image_parts(data, user_version, t);
    let file = spec_flush_image(data, user_version, t);
    lemma_round_to_page_bounds(data.len());
    assert(file.subrange(HEADER_SIZE as int, HEADER_SIZE + data.len()) =~= data);
}

/// User-version gate: opening a flushed image while expecting any other
/// user version fails with exactly the user-version mismatch, however valid
/// the image is otherwise.
pub proof fn lemma_user_version_gate(
    data: Seq<u8>,
    stamped_version: u64,
    expected_version: u64,
    t: Timestamps,
)
    requires
        stamped_version != expected_version,
        spec_flush_digest(data, stamped_version, t).len() == CHECKSUM_SIZE,
    ensures
        spec_open_outcome(spec_flush_image(data, stamped_version, t), data.len(), expected_version)
            == Err::<Seq<u8>, PoolError>(PoolError::UserVersionMismatch),
{
    lemma_flush_image_parts(data, stamped_version, t);
}

/// Size gate: opening a flushed image with a data size whose page-rounded
/// layout differs from the flushed one fails with exactly the size
/// mismatch, before anything is read. Two sizes that round to the same
/// number of pages produce backing files of the same size, which this gate
/// cannot tell apart.
pub proof fn lemma_size_gate(
    data: Seq<u8>,
    user_version: u64,
    expected_version: u64,
    t: Timestamps,
    other_size: nat,
)
    requires
        spec_round_to_page(other_size) != spec_round_to_page(data.len()),
        spec_flush_digest(data, user_version, t).len() == CHECKSUM_SIZE,
    ensures
        spec_open_outcome(spec_flush_image(data, user_version, t), other_size, expected_version)
            == Err::<Seq<u8>, PoolError>(PoolError::SizeMismatch),
{
    lemma_flush_image_parts(data, user_version, t);
}

/// Idempotent flush: two flushes of the same content with the same user
/// version both leave images that open back to that content; the images
/// carry the same data region and agree on every header field except the
/// clock readings and the checksum; and flushes at equal clock readings
/// leave identical images.
pub proof fn lemma_flush_idempotent(data: Seq<u8>, user_version: u64, t1: Timestamps, t2: Timestamps)
    requires
        spec_flush_digest(data, user_version, t1).len() == CHECKSUM_SIZE,
        spec_flush_digest(data, user_version, t2).len() == CHECKSUM_SIZE,
    ensures
        spec_open_outcome(spec_flush_image(data, user_version, t1), data.len(), user_version)
            == Ok::<Seq<u8>, PoolError>(data),
        spec_open_outcome(spec_flush_image(data, user_version, t2), data.len(), user_version)
            == Ok::<Seq<u8>, PoolError>(data),
        spec_flush_image(data, user_version, t1).subrange(
            HEADER_SIZE as int,
            spec_flush_image(data, user_version, t1).len() as int,
        ) == spec_flush_image(data, user_version, t2).subrange(
            HEADER_SIZE as int,
            spec_flush_image(data, user_version, t2).len() as int,
        ),
        spec_file_header(spec_flush_image(data, user_version, t1)).magic == spec_file_header(
            spec_flush_image(data, user_version, t2),
        ).magic,
        spec_file_header(spec_flush_image(data, user_version, t1)).version == spec_file_header(
            spec_flush_image(data, user_version, t2),
        ).version,
        spec_file_header(spec_flush_image(data, user_version, t1)).user_version
            == spec_file_header(spec_flush_image(data, user_version, t2)).user_version,
        spec_file_header(spec_flush_image(data, user_version, t1)).options == spec_file_header(
            spec_flush_image(data, user_version, t2),
        ).options,
        t1 == t2 ==> spec_flush_image(data, user_version, t1) == spec_flush_image(
            data,
            user_version,
            t2,
        ),
{
    lemma_flush_open_round_trip(data, user_version, t1);
    lemma_flush_open_round_trip(data, user_version, t2);
    lemma_flush_image_parts(data, user_version, t1);
    lemma_flush_image_parts(data, user_version, t2);
}

} // verus!
