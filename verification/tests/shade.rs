use rustracer_core::raytracer::hit::Span;
use rustracer_core::raytracer::shade::{
    cue_band, faces_light, highlight, occluders, shadow_span, Band,
};

const EPS: i64 = 1;

fn ahead() -> Span {
    Span { lo: EPS, hi: None }
}

#[test]
fn no_bodies_no_occluders() {
    assert_eq!(occluders(&[], 0, ahead()), Vec::<usize>::new());
}

#[test]
fn the_shaded_body_does_not_shadow_itself() {
    assert_eq!(occluders(&[10], 0, ahead()), Vec::<usize>::new());
    assert_eq!(occluders(&[-1, 10, -1], 1, ahead()), Vec::<usize>::new());
}

#[test]
fn every_other_body_in_the_way_shadows_whatever_it_is_made_of() {
    // two bodies in the way; whichever of them is being shaded, the other
    // one shadows it
    assert_eq!(occluders(&[10, 20], 0, ahead()), vec![1]);
    assert_eq!(occluders(&[10, 20], 1, ahead()), vec![0]);
    assert_eq!(occluders(&[10, 20], 2, ahead()), vec![0, 1]);
    assert_eq!(occluders(&[10, 20], usize::MAX, ahead()), vec![0, 1]);
}

#[test]
fn a_body_between_point_and_light_occludes() {
    // body 0 is the one being shaded, body 1 stands before the light at 500
    let to_light = Span { lo: EPS, hi: Some(500) };
    assert_eq!(occluders(&[-1, 200], 0, to_light), vec![1]);
}

#[test]
fn a_body_behind_the_light_does_not_occlude() {
    let to_light = Span { lo: EPS, hi: Some(500) };
    assert_eq!(occluders(&[-1, 800], 0, to_light), Vec::<usize>::new());
    assert_eq!(occluders(&[-1, 500], 0, to_light), Vec::<usize>::new());
    assert_eq!(occluders(&[-1, 499], 0, to_light), vec![1]);
}

#[test]
fn a_body_behind_the_point_does_not_occlude() {
    assert_eq!(occluders(&[-1, -300, 0, EPS], 0, ahead()), Vec::<usize>::new());
    assert_eq!(occluders(&[-1, EPS + 1], 0, ahead()), vec![1]);
}

#[test]
fn a_far_light_is_shadowed_at_any_distance() {
    assert_eq!(occluders(&[-1, 800, i64::MAX], 0, ahead()), vec![1, 2]);
}

#[test]
fn occluders_come_in_rising_order() {
    let ts = [90, 50, -1, 10, 1, 2];
    assert_eq!(occluders(&ts, 1, ahead()), vec![0, 3, 5]);
    assert_eq!(occluders(&ts, 3, ahead()), vec![0, 1, 5]);
}

#[test]
fn one_more_body_never_uncovers_the_point() {
    let mut ts = vec![90, 50, 10];
    let before = occluders(&ts, 1, ahead());
    assert_eq!(before, vec![0, 2]);
    ts.push(-7);
    let with_miss = occluders(&ts, 1, ahead());
    assert_eq!(with_miss, before);
    ts.push(7);
    let with_hit = occluders(&ts, 1, ahead());
    assert_eq!(&with_hit[..before.len()], &before[..]);
    assert_eq!(with_hit.len(), before.len() + 1);
    assert_eq!(with_hit[before.len()], 4);
}

#[test]
fn a_surface_that_faces_the_light_is_lit() {
    assert!(faces_light(0));
    assert!(faces_light(1));
    assert!(faces_light(0x3ff0_0000_0000_0000));
    assert!(faces_light(i64::MAX));
}

#[test]
fn a_light_behind_the_surface_is_skipped() {
    assert!(!faces_light(-1));
    assert!(!faces_light(-0x3ff0_0000_0000_0000));
    assert!(!faces_light(i64::MIN));
}

#[test]
fn highlight_is_the_larger_of_cosine_and_zero() {
    assert_eq!(highlight(0x3fe0_0000_0000_0000), 0x3fe0_0000_0000_0000);
    assert_eq!(highlight(1), 1);
    assert_eq!(highlight(0), 0);
    assert_eq!(highlight(-1), 0);
    assert_eq!(highlight(-0x3fe0_0000_0000_0000), 0);
    assert_eq!(highlight(i64::MIN), 0);
    assert_eq!(highlight(i64::MAX), i64::MAX);
}

#[test]
fn at_or_before_the_near_bound_is_near() {
    assert_eq!(cue_band(5, 10, 20), Band::Near);
    assert_eq!(cue_band(10, 10, 20), Band::Near);
    assert_eq!(cue_band(i64::MIN, 10, 20), Band::Near);
}

#[test]
fn at_or_beyond_the_far_bound_is_far() {
    assert_eq!(cue_band(20, 10, 20), Band::Far);
    assert_eq!(cue_band(21, 10, 20), Band::Far);
    assert_eq!(cue_band(i64::MAX, 10, 20), Band::Far);
}

#[test]
fn strictly_between_the_bounds_is_between() {
    assert_eq!(cue_band(11, 10, 20), Band::Between);
    assert_eq!(cue_band(15, 10, 20), Band::Between);
    assert_eq!(cue_band(19, 10, 20), Band::Between);
}

#[test]
fn the_near_bound_is_judged_first() {
    // bounds that cross: nothing lies between
    assert_eq!(cue_band(15, 20, 10), Band::Near);
    assert_eq!(cue_band(20, 20, 10), Band::Near);
    assert_eq!(cue_band(25, 20, 10), Band::Far);
    assert_eq!(cue_band(7, 7, 7), Band::Near);
    assert_eq!(cue_band(8, 7, 7), Band::Far);
}

const ONE: i64 = 0x3ff0_0000_0000_0000;
const TINY: i64 = 0x3cb0_0000_0000_0000;

#[test]
fn a_point_light_is_shadowed_only_before_it() {
    let span = shadow_span(ONE, ONE + 77);
    assert_eq!(span.lo, TINY);
    assert_eq!(span.hi, Some(ONE + 77));
}

#[test]
fn a_light_from_a_direction_is_shadowed_at_any_distance() {
    let span = shadow_span(0, ONE + 77);
    assert_eq!(span.lo, TINY);
    assert_eq!(span.hi, None);
    let odd = shadow_span(ONE + 1, 5);
    assert_eq!(odd.hi, None);
    let nan = shadow_span(i64::MIN, 5);
    assert_eq!(nan.hi, None);
}
