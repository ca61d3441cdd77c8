use vstd::prelude::*;
use crate::math::ordinal::{
    is_near_zero, near_zero, ordinal, ordinal_of, EPSILON, INFINITY, ONE,
};

verus! {

/// An open range of ray parameters: those above `lo` and, where `hi` is
/// given, below it.
#[derive(Clone, Copy, Debug)]
pub struct Span {
    pub lo: i64,
    pub hi: Option<i64>,
}

impl Span {
    /// Does `t` lie strictly inside the range?
    pub open spec fn admits(self, t: i64) -> bool {
        self.lo < t && match self.hi {
            Some(h) => t < h,
            None => true,
        }
    }

    /// Everything ahead of the origin: above the threshold, with no upper
    /// end.
    pub fn ahead() -> (s: Span)
        ensures
            s.lo == ordinal_of(EPSILON),
            s.hi.is_none(),
    {
        Span { lo: ordinal(EPSILON), hi: None }
    }

    /// What lies ahead of the origin and before `limit`.
    pub fn before(limit: i64) -> (s: Span)
        ensures
            s.lo == ordinal_of(EPSILON),
            s.hi == Some(limit),
    {
        Span { lo: ordinal(EPSILON), hi: Some(limit) }
    }

    /// What lies ahead of the origin at a finite distance.
    pub fn finite() -> (s: Span)
        ensures
            s.lo == ordinal_of(EPSILON),
            s.hi == Some(ordinal_of(INFINITY) as i64),
    {
        Span { lo: ordinal(EPSILON), hi: Some(ordinal(INFINITY)) }
    }

    /// Does `t` lie strictly inside the range?
    pub fn contains(&self, t: i64) -> (b: bool)
        ensures
            b == self.admits(t),
    {
        self.lo < t && match self.hi {
            Some(h) => t < h,
            None => true,
        }
    }
}

/// Entry `i` is the nearest hit among `ts` within `span`: it lies in the
/// range, nothing in the range is nearer, and nothing before it in the list
/// is as near.
pub open spec fn is_nearest(ts: Seq<i64>, span: Span, i: int) -> bool {
    &&& 0 <= i < ts.len()
    &&& span.admits(ts[i])
    &&& forall|k: int| 0 <= k < ts.len() && span.admits(#[trigger] ts[k]) ==> ts[i] <= ts[k]
    &&& forall|k: int| 0 <= k < i && span.admits(#[trigger] ts[k]) ==> ts[i] < ts[k]
}

/// Nothing among `ts` lies within `span`.
pub open spec fn no_hit(ts: Seq<i64>, span: Span) -> bool {
    forall|k: int| 0 <= k < ts.len() ==> !span.admits(#[trigger] ts[k])
}

/// The nearest hit: the index of the smallest ray parameter that lies within
/// `span`, the first such index where several are equal; `None` where no
/// parameter lies within it. One linear scan.
pub fn nearest_hit(ts: &[i64], span: Span) -> (hit: Option<usize>)
    ensures
        match hit {
            Some(i) => is_nearest(ts@, span, i as int),
            None => no_hit(ts@, span),
        },
{
    let mut best: Option<usize> = None;
    let mut k: usize = 0;
    while k < ts.len()
        invariant
            k <= ts.len(),
            match best {
                Some(i) => i < k && is_nearest(ts@.take(k as int), span, i as int),
                None => no_hit(ts@.take(k as int), span),
            },
        decreases ts.len() - k,
    {
        let t = ts[k];
        let ghost before = ts@.take(k as int);
        let ghost after = ts@.take(k + 1);
        assert(forall|j: int| 0 <= j < k ==> before[j] == after[j]);
        assert(after[k as int] == t);
        if span.contains(t) {
            match best {
                Some(i) => {
                    if t < ts[i] {
                        best = Some(k);
                    }
                },
                None => {
                    best = Some(k);
                },
            }
        }
        k = k + 1;
    }
    assert(ts@.take(k as int) =~= ts@);
    best
}

/// A list has at most one nearest hit.
pub proof fn lemma_nearest_is_unique(ts: Seq<i64>, span: Span, i: int, j: int)
    requires
        is_nearest(ts, span, i),
        is_nearest(ts, span, j),
    ensures
        i == j,
{
    if i < j {
        assert(span.admits(ts[i]));
    } else if j < i {
        assert(span.admits(ts[j]));
    }
}

/// Of the two roots of a ray's meeting with a sphere, the smaller one within
/// the range is the hit, the first where they are equal; a root outside the
/// range leaves the hit to the other, so an eye inside the sphere sees the
/// far wall; and with both outside there is no hit.
pub proof fn lemma_choice_of_two_roots(t1: i64, t2: i64, span: Span)
    ensures
        is_nearest(seq![t1, t2], span, 0) <==> span.admits(t1) && (span.admits(t2) ==> t1 <= t2),
        is_nearest(seq![t1, t2], span, 1) <==> span.admits(t2) && (span.admits(t1) ==> t2 < t1),
        no_hit(seq![t1, t2], span) <==> !span.admits(t1) && !span.admits(t2),
{
    let roots = seq![t1, t2];
    assert(roots.len() == 2 && roots[0] == t1 && roots[1] == t2);
}

/// The nearest hit stays the nearest when an entry outside the range is
/// added behind the list.
pub proof fn lemma_nearest_ignores_misses(ts: Seq<i64>, span: Span, i: int, miss: i64)
    requires
        is_nearest(ts, span, i),
        !span.admits(miss),
    ensures
        is_nearest(ts.push(miss), span, i),
{
    let longer = ts.push(miss);
    assert(forall|k: int| 0 <= k < ts.len() ==> longer[k] == ts[k]);
}

/// Which root of a ray's meeting with a sphere is the hit.
#[derive(Clone, Copy, Debug, PartialEq, Eq, Structural)]
pub enum Root {
    /// The ray passes the sphere, or meets it only behind its origin.
    Miss,
    /// The ray touches the sphere: the two roots are one.
    Tangent,
    /// The first of the two roots.
    First,
    /// The second of the two roots.
    Second,
}

/// The hit of a ray on a sphere, by the discriminant of the quadratic and
/// its two roots: none where the discriminant is negative; the single root
/// where it is zero; else the nearest of the two roots ahead of the origin,
/// and none where neither lies ahead.
pub open spec fn root_of(discriminant: i64, t1: i64, t2: i64) -> Root {
    let ahead = Span { lo: ordinal_of(EPSILON) as i64, hi: None };
    if discriminant < 0 {
        Root::Miss
    } else if discriminant == 0 {
        Root::Tangent
    } else if is_nearest(seq![t1, t2], ahead, 0) {
        Root::First
    } else if is_nearest(seq![t1, t2], ahead, 1) {
        Root::Second
    } else {
        Root::Miss
    }
}

/// Picks the hit of a ray on a sphere from the discriminant and the two
/// roots.
pub fn sphere_root(discriminant: i64, t1: i64, t2: i64) -> (r: Root)
    ensures
        r == root_of(discriminant, t1, t2),
{
    if discriminant < 0 {
        return Root::Miss;
    }
    if discriminant == 0 {
        return Root::Tangent;
    }
    let roots: [i64; 2] = [t1, t2];
    assert(roots@ =~= seq![t1, t2]);
    let ahead = Span::ahead();
    proof {
        lemma_choice_of_two_roots(t1, t2, ahead);
    }
    match nearest_hit(roots.as_slice(), ahead) {
        Some(0) => Root::First,
        Some(_) => Root::Second,
        None => Root::Miss,
    }
}

/// By Snell's law a ray is reflected back whole, and not refracted, where
/// the discriminant of the refraction is negative.
pub fn reflects_totally(discriminant: i64) -> (b: bool)
    ensures
        b == (discriminant < 0),
{
    discriminant < 0
}

/// Does the quantity lie between zero and one, the bounds counted in?
pub open spec fn in_unit(x: i64) -> bool {
    0 <= x <= ordinal_of(ONE)
}

/// A ray hits a triangle where it meets the triangle's plane at or ahead of
/// its origin, the triangle has area, and all three barycentric coordinates
/// of the meeting point lie between zero and one.
pub open spec fn triangle_accepts(t: i64, det: i64, alpha: i64, beta: i64, gamma: i64) -> bool {
    &&& t >= 0
    &&& !is_near_zero(det)
    &&& in_unit(alpha)
    &&& in_unit(beta)
    &&& in_unit(gamma)
}

/// Does the ray hit the triangle? `t` is the ray parameter at the
/// triangle's plane, `det` the determinant of the barycentric system, and
/// `alpha`, `beta`, `gamma` the barycentric coordinates.
pub fn triangle_hit(t: i64, det: i64, alpha: i64, beta: i64, gamma: i64) -> (hit: bool)
    ensures
        hit == triangle_accepts(t, det, alpha, beta, gamma),
{
    let one = ordinal(ONE);
    t >= 0 && !near_zero(det) && 0 <= alpha && alpha <= one && 0 <= beta && beta <= one && 0
        <= gamma && gamma <= one
}

} // verus!
