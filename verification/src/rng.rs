use vstd::prelude::*;

verus! {

/// Relies on rand's `Rng::gen_range` on a thread-local generator, over the
/// inclusive range `lo..=hi`: the range is non-empty by the precondition,
/// so the call does not panic, and the sample lies within the range.
#[verifier::external_body]
pub(crate) fn roll_between(lo: i32, hi: i32) -> (r: i32)
    requires
        lo <= hi,
    ensures
        lo <= r <= hi,
{
    rand::Rng::gen_range(&mut rand::thread_rng(), lo..=hi)
}

} // verus!
