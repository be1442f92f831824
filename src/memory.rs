//! Available physical memory, from the byte count the operating system reports.
use vstd::prelude::*;

verus! {

/// Bytes in one megabyte (binary).
pub const BYTES_PER_MB: u64 = 1024 * 1024;

/// Whole megabytes in `bytes`, rounded down.
pub open spec fn mb_of(bytes: u64) -> u64 {
    (bytes / 1024 / 1024) as u64
}

/// Converts an available byte count to whole megabytes, rounding down.
pub fn bytes_to_mb(bytes: u64) -> (r: u64)
    ensures
        r == mb_of(bytes),
        r as int == bytes as int / (BYTES_PER_MB as int),
{
    let r = bytes / 1024 / 1024;
    assert(r as int == bytes as int / (BYTES_PER_MB as int)) by {
        vstd::arithmetic::div_mod::lemma_div_denominator(bytes as int, 1024, 1024);
    }
    r
}

/// The available memory in megabytes, given the outcome of the operating
/// system's memory-status query (`None` when the query failed).
pub fn available_memory_mb(available_bytes: Option<u64>) -> (r: Option<u64>)
    ensures
        available_bytes is None ==> r is None,
        available_bytes matches Some(b) ==> r == Some(mb_of(b)),
{
    match available_bytes {
        Some(b) => Some(bytes_to_mb(b)),
        None => None,
    }
}

} // verus!
