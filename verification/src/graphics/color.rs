use vstd::prelude::*;
use crate::math::ordinal::{ordinal, ordinal_of, ONE};

verus! {

/// A channel cut off at one: one where the channel is above one, the
/// channel itself where it is not. A channel below zero stays below zero.
pub open spec fn saturated(channel: i64) -> int {
    if channel > ordinal_of(ONE) {
        ordinal_of(ONE)
    } else {
        channel as int
    }
}

/// Cuts a channel off at one, and at one only: there is no lower bound.
pub fn saturate(channel: i64) -> (c: i64)
    ensures
        c == saturated(channel),
{
    let one = ordinal(ONE);
    if channel > one {
        one
    } else {
        channel
    }
}

/// Cutting off changes nothing at or below one, gives one above it, and
/// done twice is the same as done once.
pub proof fn lemma_saturated(channel: i64)
    ensures
        saturated(channel) <= ordinal_of(ONE),
        channel <= ordinal_of(ONE) ==> saturated(channel) == channel,
        saturated(saturated(channel) as i64) == saturated(channel),
{
}

} // verus!
