//! From clip coordinates to pixels: the perspective divide, the clipping of
//! each coordinate to the visible range, the mapping to the drawing area,
//! and the walk over a solid's edges that draws its wireframe.

use crate::polytopes::{Corner, Edge, Vector3d};
use core::cmp::Ordering;
use core::ops::{Add, Div, Mul, Neg};
use vstd::prelude::*;
use vstd::std_specs::cmp::PartialOrdSpec;
use vstd::std_specs::ops::{AddSpec, DivSpec, MulSpec, NegSpec};

verus! {

/// The coordinate `x` held inside the range from `low` to `high`: `high` if
/// `x` lies above it, `low` if `x` lies below it, and `x` itself otherwise.
/// A value that compares with neither bound, such as a NaN, passes through.
pub open spec fn clipped<S: PartialOrd>(x: S, low: S, high: S) -> S {
    if x.partial_cmp_spec(&high) == Some(Ordering::Greater) {
        high
    } else if x.partial_cmp_spec(&low) == Some(Ordering::Less) {
        low
    } else {
        x
    }
}

/// Holds one coordinate inside the range from `low` to `high`. Each
/// coordinate of a point is clipped on its own, so a line that leaves the
/// visible range is bent at the border rather than cut there.
pub fn clip<S: Copy + PartialOrd>(x: S, low: S, high: S) -> (kept: S)
    ensures
        kept == x || kept == low || kept == high,
        S::obeys_partial_cmp_spec() ==> kept == clipped(x, low, high),
{
    if x > high {
        high
    } else if x < low {
        low
    } else {
        x
    }
}

/// On whole numbers, with the bounds in order, a clipped coordinate lies in
/// the range, and a coordinate that lay in the range is left as it was.
pub proof fn lemma_clipped_is_in_range(x: i64, low: i64, high: i64)
    requires
        low <= high,
    ensures
        low <= clipped(x, low, high) <= high,
        low <= x <= high ==> clipped(x, low, high) == x,
{
}

/// A point in clip coordinates: x, y, z and the depth w to divide them by.
pub type Vector4d<S> = (S, S, S, S);

/// A point of the drawing area: pixels to the right of and below its top
/// left corner.
pub type Pixel<S> = (S, S);

/// The drawing area, as the mapping from device coordinates to pixels
/// needs it.
#[derive(Debug, PartialEq)]
pub struct Screen<S> {
    /// Pixels per unit of device coordinates.
    pub scale: S,
    /// The pixel on which the device origin falls: half the width and half
    /// the height of the area.
    pub center: Pixel<S>,
}

/// Whether `point` may be divided by its depth in every coordinate.
pub open spec fn can_divide<S: Div<Output = S>>(point: Vector4d<S>) -> bool {
    &&& point.0.div_req(point.3)
    &&& point.1.div_req(point.3)
    &&& point.2.div_req(point.3)
}

/// The device coordinates of `point`: x, y and z, each divided by the depth.
pub open spec fn divided<S: Div<Output = S>>(point: Vector4d<S>) -> Vector3d<S> {
    (point.0.div_spec(point.3), point.1.div_spec(point.3), point.2.div_spec(point.3))
}

/// Divides x, y and z by the depth, which makes what is far away small. The
/// division is the scalar's own: a depth of 0 gives whatever the scalar
/// gives for a division by 0.
pub fn perspective_divide<S: Copy + Div<Output = S>>(point: Vector4d<S>) -> (ndc: Vector3d<S>)
    requires
        can_divide(point),
    ensures
        S::obeys_div_spec() ==> ndc == divided(point),
{
    let (x, y, z, w) = point;
    (x / w, y / w, z / w)
}

/// The point `ndc` with each coordinate clipped on its own.
pub open spec fn clipped_point<S: PartialOrd>(ndc: Vector3d<S>, low: S, high: S) -> Vector3d<S> {
    (clipped(ndc.0, low, high), clipped(ndc.1, low, high), clipped(ndc.2, low, high))
}

/// Holds each coordinate of a point inside the range from `low` to `high`.
pub fn clip_point<S: Copy + PartialOrd>(ndc: Vector3d<S>, low: S, high: S) -> (kept: Vector3d<S>)
    ensures
        kept.0 == ndc.0 || kept.0 == low || kept.0 == high,
        kept.1 == ndc.1 || kept.1 == low || kept.1 == high,
        kept.2 == ndc.2 || kept.2 == low || kept.2 == high,
        S::obeys_partial_cmp_spec() ==> kept == clipped_point(ndc, low, high),
{
    (clip(ndc.0, low, high), clip(ndc.1, low, high), clip(ndc.2, low, high))
}

/// The pixel on which the device point (`x`, `y`) falls: `x * scale` to the
/// right of the center and `y * scale` above it. Pixels count downwards, so
/// y is negated first.
pub open spec fn shown<S: Add<Output = S> + Mul<Output = S> + Neg<Output = S>>(
    x: S,
    y: S,
    screen: Screen<S>,
) -> Pixel<S> {
    (
        x.mul_spec(screen.scale).add_spec(screen.center.0),
        y.neg_spec().mul_spec(screen.scale).add_spec(screen.center.1),
    )
}

/// Whether the pixel of the device point (`x`, `y`) can be computed in `S`:
/// the scalar's negation, products and sums are exact, and none of those
/// that the mapping takes leaves the type's range.
pub open spec fn can_show<S: Add<Output = S> + Mul<Output = S> + Neg<Output = S>>(
    x: S,
    y: S,
    screen: Screen<S>,
) -> bool {
    &&& S::obeys_neg_spec()
    &&& S::obeys_mul_spec()
    &&& S::obeys_add_spec()
    &&& x.mul_req(screen.scale)
    &&& x.mul_spec(screen.scale).add_req(screen.center.0)
    &&& y.neg_req()
    &&& y.neg_spec().mul_req(screen.scale)
    &&& y.neg_spec().mul_spec(screen.scale).add_req(screen.center.1)
}

/// Maps a point in device coordinates to its pixel. The depth z plays no
/// part: a wireframe hides nothing.
pub fn to_pixel<S>(ndc: Vector3d<S>, screen: &Screen<S>) -> (pixel: Pixel<S>) where
    S: Copy + Add<Output = S> + Mul<Output = S> + Neg<Output = S>,

    requires
        can_show(ndc.0, ndc.1, *screen),
    ensures
        pixel == shown(ndc.0, ndc.1, *screen),
{
    let (x, y, _) = ndc;
    (x * screen.scale + screen.center.0, y.neg() * screen.scale + screen.center.1)
}

/// The pixel on which a point in clip coordinates falls: divided by its
/// depth, clipped to the range from `low` to `high`, and mapped to the
/// drawing area.
pub open spec fn placed<S>(
    point: Vector4d<S>,
    low: S,
    high: S,
    screen: Screen<S>,
) -> Pixel<S> where
    S: PartialOrd + Add<Output = S> + Mul<Output = S> + Neg<Output = S> + Div<Output = S>,
 {
    let kept = clipped_point(divided(point), low, high);
    shown(kept.0, kept.1, screen)
}

/// Whether the pixel of a point in clip coordinates can be computed in `S`:
/// the scalar's division and comparisons are exact, the point can be
/// divided by its depth, and what is left after clipping can be mapped.
pub open spec fn can_place<S>(
    point: Vector4d<S>,
    low: S,
    high: S,
    screen: Screen<S>,
) -> bool where
    S: PartialOrd + Add<Output = S> + Mul<Output = S> + Neg<Output = S> + Div<Output = S>,
 {
    let kept = clipped_point(divided(point), low, high);
    &&& S::obeys_div_spec()
    &&& S::obeys_partial_cmp_spec()
    &&& can_divide(point)
    &&& can_show(kept.0, kept.1, screen)
}

/// Takes a point from clip coordinates to its pixel: the perspective
/// divide, then the clipping of each coordinate, then the mapping to the
/// drawing area.
pub fn place<S>(point: Vector4d<S>, low: S, high: S, screen: &Screen<S>) -> (pixel: Pixel<S>) where
    S: Copy + PartialOrd + Add<Output = S> + Mul<Output = S> + Neg<Output = S> + Div<Output = S>,

    requires
        can_place(point, low, high, *screen),
    ensures
        pixel == placed(point, low, high, *screen),
{
    let ndc = perspective_divide(point);
    let kept = clip_point(ndc, low, high);
    to_pixel(kept, screen)
}

/// In whole numbers, a pixel is what the formula says, and the picture is
/// as wide to the left of the center as to the right, and as high above it
/// as below: mirroring a device point in x or in y mirrors its pixel about
/// the center.
pub proof fn lemma_shown_in_whole_numbers(x: i64, y: i64, screen: Screen<i64>)
    requires
        can_show(x, y, screen),
        can_show((-x) as i64, (-y) as i64, screen),
        x != i64::MIN,
        y != i64::MIN,
    ensures
        shown(x, y, screen).0 == x * screen.scale + screen.center.0,
        shown(x, y, screen).1 == -y * screen.scale + screen.center.1,
        shown((-x) as i64, y, screen).0 - screen.center.0 == -(shown(x, y, screen).0
            - screen.center.0),
        shown((-x) as i64, y, screen).1 == shown(x, y, screen).1,
        shown(x, (-y) as i64, screen).1 - screen.center.1 == -(shown(x, y, screen).1
            - screen.center.1),
        shown(x, (-y) as i64, screen).0 == shown(x, y, screen).0,
{
    assert((-x) * screen.scale == -(x * screen.scale)) by (nonlinear_arith);
    assert((-y) * screen.scale == -(y * screen.scale)) by (nonlinear_arith);
}

/// Draws a wireframe: sends both ends of every edge through `locate` and
/// returns the resulting lines, one for each edge and in the order of the
/// edges.
pub fn project<T, F: Fn(Corner) -> T>(edges: &Vec<Edge>, locate: F) -> (lines: Vec<(T, T)>)
    requires
        forall|i: int|
            0 <= i < edges@.len() ==> call_requires(locate, (#[trigger] edges@[i].0,))
                && call_requires(locate, (edges@[i].1,)),
    ensures
        lines@.len() == edges@.len(),
        forall|i: int|
            0 <= i < edges@.len() ==> call_ensures(locate, (edges@[i].0,), #[trigger] lines@[i].0)
                && call_ensures(locate, (edges@[i].1,), lines@[i].1),
{
    let mut lines: Vec<(T, T)> = Vec::new();
    let mut k: usize = 0;
    while k < edges.len()
        invariant
            k <= edges@.len(),
            lines@.len() == k,
            forall|i: int|
                0 <= i < edges@.len() ==> call_requires(locate, (#[trigger] edges@[i].0,))
                    && call_requires(locate, (edges@[i].1,)),
            forall|i: int|
                0 <= i < k ==> call_ensures(locate, (edges@[i].0,), #[trigger] lines@[i].0)
                    && call_ensures(locate, (edges@[i].1,), lines@[i].1),
        decreases edges@.len() - k,
    {
        let (from, to) = edges[k];
        let start = locate(from);
        let end = locate(to);
        lines.push((start, end));
        k += 1;
    }
    lines
}

} // verus!
