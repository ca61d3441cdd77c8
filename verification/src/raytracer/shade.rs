use vstd::prelude::*;
use crate::math::ordinal::{ordinal_of, EPSILON};
use crate::math::vector::{is_point, marks_point};
use crate::raytracer::hit::Span;

verus! {

/// Where a body must be met to shadow a point: ahead of the point, and for
/// a point light before the light, which stands at `distance`; a light that
/// shines from a direction is shadowed at any distance. `w` is the fourth
/// coordinate of the light's vector.
pub fn shadow_span(w: i64, distance: i64) -> (span: Span)
    ensures
        span.lo == ordinal_of(EPSILON),
        is_point(w) ==> span.hi == Some(distance),
        !is_point(w) ==> span.hi.is_none(),
{
    if marks_point(w) {
        Span::before(distance)
    } else {
        Span::ahead()
    }
}

/// Body `k`, which the shadow ray meets at `t`, shadows the point being
/// shaded where it is not the body being shaded itself and `t` lies within
/// `span`. What the body is made of does not count.
pub open spec fn occludes(k: int, t: i64, shaded: usize, span: Span) -> bool {
    k != shaded && span.admits(t)
}

/// `out` lists the bodies that shadow the point: it rises strictly, each
/// index in it names a body that shadows the point, and every such body is
/// in it.
pub open spec fn lists_occluders(ts: Seq<i64>, shaded: usize, span: Span, out: Seq<usize>) -> bool {
    &&& forall|a: int, b: int| 0 <= a < b < out.len() ==> out[a] < out[b]
    &&& forall|a: int|
        0 <= a < out.len() ==> (#[trigger] out[a]) < ts.len() && occludes(
            out[a] as int,
            ts[out[a] as int],
            shaded,
            span,
        )
    &&& forall|k: int|
        0 <= k < ts.len() && occludes(k, #[trigger] ts[k], shaded, span) ==> out.contains(
            k as usize,
        )
}

/// The indices of the bodies that shadow the point, in rising order, built
/// up body by body.
pub open spec fn occluder_indices(ts: Seq<i64>, shaded: usize, span: Span) -> Seq<usize>
    decreases ts.len(),
{
    if ts.len() == 0 {
        Seq::empty()
    } else {
        let earlier = occluder_indices(ts.drop_last(), shaded, span);
        if occludes(ts.len() - 1, ts.last(), shaded, span) {
            earlier.push((ts.len() - 1) as usize)
        } else {
            earlier
        }
    }
}

/// The bodies that stand between a point and a light. `ts` holds, body by
/// body, the ray parameter at which the shadow ray meets the body, and
/// `shaded` is the index of the body that the point lies on. The answer is
/// the index of every other body that is met within `span`, in rising
/// order: a body of the same material as the shaded one shadows like any
/// other.
pub fn occluders(ts: &[i64], shaded: usize, span: Span) -> (out: Vec<usize>)
    ensures
        lists_occluders(ts@, shaded, span, out@),
        out@ == occluder_indices(ts@, shaded, span),
{
    let mut out: Vec<usize> = Vec::new();
    let mut k: usize = 0;
    while k < ts.len()
        invariant
            k <= ts.len(),
            out@ == occluder_indices(ts@.take(k as int), shaded, span),
        decreases ts.len() - k,
    {
        let t = ts[k];
        assert(ts@.take(k + 1).drop_last() =~= ts@.take(k as int));
        assert(ts@.take(k + 1).last() == t);
        if k != shaded && span.contains(t) {
            out.push(k);
        }
        k = k + 1;
    }
    assert(ts@.take(k as int) =~= ts@);
    proof {
        lemma_occluders_are_exact(ts@, shaded, span);
    }
    out
}

/// The list built up body by body is the list of the bodies that shadow
/// the point.
pub proof fn lemma_occluders_are_exact(ts: Seq<i64>, shaded: usize, span: Span)
    requires
        ts.len() <= usize::MAX,
    ensures
        lists_occluders(ts, shaded, span, occluder_indices(ts, shaded, span)),
    decreases ts.len(),
{
    if ts.len() > 0 {
        let head = ts.drop_last();
        let earlier = occluder_indices(head, shaded, span);
        let all = occluder_indices(ts, shaded, span);
        lemma_occluders_are_exact(head, shaded, span);
        assert(forall|k: int| 0 <= k < head.len() ==> head[k] == ts[k]);
        assert forall|k: int|
            0 <= k < ts.len() && occludes(k, #[trigger] ts[k], shaded, span) implies all.contains(
            k as usize,
        ) by {
            if k < head.len() {
                assert(occludes(k, head[k], shaded, span));
                let a = choose|a: int| 0 <= a < earlier.len() && earlier[a] == k as usize;
                assert(all[a] == k as usize);
            } else {
                assert(all[all.len() - 1] == k as usize);
            }
        }
    }
}

/// With no body in the way, nothing shadows the point.
pub proof fn lemma_no_occluders(ts: Seq<i64>, shaded: usize, span: Span)
    requires
        forall|k: int| 0 <= k < ts.len() ==> !occludes(k, #[trigger] ts[k], shaded, span),
    ensures
        occluder_indices(ts, shaded, span).len() == 0,
    decreases ts.len(),
{
    if ts.len() > 0 {
        let head = ts.drop_last();
        assert(forall|k: int| 0 <= k < head.len() ==> head[k] == ts[k]);
        lemma_no_occluders(head, shaded, span);
        assert(!occludes(ts.len() - 1, ts[ts.len() - 1], shaded, span));
    }
}

/// One more body in the scene never uncovers the point: the occluders found
/// before are still found, in the same places of the list, and the list
/// grows by the new body exactly when it shadows the point.
pub proof fn lemma_occluders_grow(ts: Seq<i64>, extra: i64, shaded: usize, span: Span)
    ensures
        occluder_indices(ts, shaded, span).is_prefix_of(
            occluder_indices(ts.push(extra), shaded, span),
        ),
        occluder_indices(ts.push(extra), shaded, span).len() == occluder_indices(
            ts,
            shaded,
            span,
        ).len() + if occludes(ts.len() as int, extra, shaded, span) {
            1int
        } else {
            0int
        },
{
    assert(ts.push(extra).drop_last() =~= ts);
}

/// Every body between a point and a light shadows the point, whatever it is
/// made of, but the body that the point lies on.
pub proof fn lemma_body_between_occludes(ts: Seq<i64>, k: int, shaded: usize, span: Span)
    requires
        ts.len() <= usize::MAX,
        0 <= k < ts.len(),
        span.admits(ts[k]),
    ensures
        k != shaded ==> occluder_indices(ts, shaded, span).contains(k as usize),
        k == shaded ==> !occluder_indices(ts, shaded, span).contains(k as usize),
{
    lemma_occluders_are_exact(ts, shaded, span);
    let all = occluder_indices(ts, shaded, span);
    if k != shaded {
        assert(occludes(k, ts[k], shaded, span));
    } else if all.contains(k as usize) {
        let a = choose|a: int| 0 <= a < all.len() && all[a] == k as usize;
        assert(occludes(all[a] as int, ts[all[a] as int], shaded, span));
    }
}

/// Does the surface face the light? It does where the cosine between the
/// surface normal and the direction to the light is not negative; a light
/// behind the surface adds neither diffuse nor specular light.
pub fn faces_light(ndotl: i64) -> (b: bool)
    ensures
        b == (ndotl >= 0),
{
    ndotl >= 0
}

/// The base of the specular highlight: the cosine between the surface
/// normal and the half vector, or zero where the cosine is negative.
pub open spec fn highlight_of(ndoth: i64) -> int {
    if ndoth < 0 {
        0
    } else {
        ndoth as int
    }
}

/// The base of the specular highlight: the larger of the cosine and zero.
pub fn highlight(ndoth: i64) -> (c: i64)
    ensures
        c == highlight_of(ndoth),
{
    if ndoth < 0 {
        0
    } else {
        ndoth
    }
}

/// Where a distance stands to the two bounds of the depth cue.
#[derive(Clone, Copy, Debug, PartialEq, Eq, Structural)]
pub enum Band {
    /// At or before the near bound: the blend factor is the far opacity.
    Near,
    /// Beyond the near bound and before the far one: the blend factor is
    /// interpolated.
    Between,
    /// At or beyond the far bound: the blend factor is the near opacity.
    Far,
}

/// The band of a distance: near at or before `near`; else far at or beyond
/// `far`; else between. The near bound is judged first.
pub open spec fn band_of(distance: i64, near: i64, far: i64) -> Band {
    if distance <= near {
        Band::Near
    } else if distance >= far {
        Band::Far
    } else {
        Band::Between
    }
}

/// The band of the depth cue in which the distance from the eye falls.
pub fn cue_band(distance: i64, near: i64, far: i64) -> (band: Band)
    ensures
        band == band_of(distance, near, far),
{
    if distance <= near {
        Band::Near
    } else if distance >= far {
        Band::Far
    } else {
        Band::Between
    }
}

/// Only a distance strictly between the bounds is interpolated, and every
/// such distance is; so the blend factor is one of the two opacities
/// themselves at the bounds and beyond them.
pub proof fn lemma_band_between(distance: i64, near: i64, far: i64)
    ensures
        band_of(distance, near, far) == Band::Between <==> near < distance < far,
{
}

} // verus!
