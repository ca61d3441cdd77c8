use vstd::prelude::*;
use crate::math::ordinal::{ordinal, ordinal_of, ONE};

verus! {

/// Does the fourth coordinate mark a point? It does where it is one; zero
/// marks a free direction.
pub open spec fn is_point(w: i64) -> bool {
    w == ordinal_of(ONE)
}

/// Does the fourth coordinate mark a point?
pub fn marks_point(w: i64) -> (b: bool)
    ensures
        b == is_point(w),
{
    w == ordinal(ONE)
}

/// Can two vectors be added? Any two can but two points, whose sum has no
/// meaning.
pub fn can_add(w1: i64, w2: i64) -> (b: bool)
    ensures
        b == !(is_point(w1) && is_point(w2)),
{
    !(marks_point(w1) && marks_point(w2))
}

} // verus!
