//! On-disk layout constants and page-rounding arithmetic shared by every
//! path that creates, validates or rewrites a backing file.

use vstd::prelude::*;

verus! {

/// Alignment and transfer unit for all backing-store I/O, in bytes.
pub const PAGE_SIZE: usize = 4096;

/// Size of the metadata header record: exactly one page.
pub const HEADER_SIZE: usize = 4096;

/// Eight-byte signature identifying a backing file as belonging to this
/// format (the little-endian bytes spell "SEGPOOL1").
pub const MAGIC: u64 = 0x314c_4f4f_5047_4553;

/// Compiled-in format version; a file stamped with any other value is
/// rejected at open time.
pub const FORMAT_VERSION: u64 = 1;

/// `n` rounded up to the next multiple of the page size.
pub open spec fn spec_round_to_page(n: nat) -> nat {
    if n % (PAGE_SIZE as nat) == 0 {
        n
    } else {
        (n + (PAGE_SIZE as nat) - n % (PAGE_SIZE as nat)) as nat
    }
}

/// Total size of a backing file holding `data_size` bytes of pool data:
/// one header page followed by the page-rounded data region.
pub open spec fn spec_total_size(data_size: nat) -> nat {
    HEADER_SIZE as nat + spec_round_to_page(data_size)
}

/// Rounds `n` up to a whole number of pages.
pub fn round_to_page(n: usize) -> (r: usize)
    requires
        n + PAGE_SIZE <= usize::MAX,
    ensures
        r == spec_round_to_page(n as nat),
        r % PAGE_SIZE == 0,
        r >= n,
        r < n + PAGE_SIZE,
{
    let rem = n % PAGE_SIZE;
    if rem == 0 {
        n
    } else {
        n + (PAGE_SIZE - rem)
    }
}

/// Total backing-file size for a pool of `data_size` data bytes.
pub fn total_size(data_size: usize) -> (r: usize)
    requires
        data_size + 2 * PAGE_SIZE <= usize::MAX,
    ensures
        r == spec_total_size(data_size as nat),
        r >= HEADER_SIZE,
        (r - HEADER_SIZE) % (PAGE_SIZE as int) == 0,
        r - HEADER_SIZE >= data_size,
{
    HEADER_SIZE + round_to_page(data_size)
}

/// The page-rounded size never shrinks and is page-aligned.
pub proof fn lemma_round_to_page_bounds(n: nat)
    ensures
        spec_round_to_page(n) >= n,
        spec_round_to_page(n) % (PAGE_SIZE as nat) == 0,
        spec_round_to_page(n) < n + PAGE_SIZE,
{
}

} // verus!
