use core::ops::RangeInclusive;
use vstd::prelude::*;

verus! {

/// Calls `RangeInclusive::start`, which returns the lower bound the range was built with.
#[verifier::external_body]
pub(crate) fn range_start(range: &RangeInclusive<u32>) -> (s: u32)
    ensures
        s == range@.start,
{
    *range.start()
}

/// Calls `RangeInclusive::end`, which returns the upper bound the range was built with.
#[verifier::external_body]
pub(crate) fn range_end(range: &RangeInclusive<u32>) -> (e: u32)
    ensures
        e == range@.end,
{
    *range.end()
}

} // verus!
