//! Randomness, drawn from the process-wide generator.

use vstd::prelude::*;

verus! {

/// Relies on rand::random_range over `lo..hi`: a value drawn from the
/// half-open range.  Nothing more is promised of a random draw.
#[verifier::external_body]
pub(crate) fn random_in(lo: u64, hi: u64) -> (r: u64)
    requires
        lo < hi,
    ensures
        lo <= r < hi,
{
    rand::random_range(lo..hi)
}

/// A random coordinate strictly inside `[min, max)`, milli-units.
pub(crate) fn random_coord(min: i64, max: i64) -> (r: i64)
    requires
        -1_000_000_000_000 <= min < max <= 1_000_000_000_000,
    ensures
        min <= r < max,
{
    let span = (max - min) as u64;
    let off = random_in(0, span);
    min + off as i64
}

} // verus!
