//! Solids in their own frame, and the pose that places them in the world.
//!
//! A solid's geometry lives on the integer lattice of its local frame and
//! never changes. Its pose (offset, rotation, scale) is kept in a scalar type
//! `S` that the solid only stores, hands back and adds.

use core::ops::Add;
use vstd::prelude::*;
use vstd::std_specs::ops::AddSpec;

verus! {

/// Three components along x, y and z: a point or a free vector.
pub type Vector3d<S> = (S, S, S);

/// A point of a solid's local frame.
pub type Corner = (i8, i8, i8);

/// A line between two points of the local frame, from the first to the second.
pub type Edge = (Corner, Corner);

/// Whether `a + b` may be computed in every component.
pub open spec fn can_sum<S: Add<Output = S>>(a: Vector3d<S>, b: Vector3d<S>) -> bool {
    &&& a.0.add_req(b.0)
    &&& a.1.add_req(b.1)
    &&& a.2.add_req(b.2)
}

/// The component-wise sum `a + b`.
pub open spec fn vector_sum<S: Add<Output = S>>(a: Vector3d<S>, b: Vector3d<S>) -> Vector3d<S> {
    (a.0.add_spec(b.0), a.1.add_spec(b.1), a.2.add_spec(b.2))
}

/// A solid with fixed local geometry and a pose that can be read, replaced
/// and accumulated.
pub trait Polytope<S: Copy> {
    /// The solid's edges in its local frame.
    spec fn edges(&self) -> Seq<Edge>;

    /// The uniform scale of the pose.
    spec fn scale(&self) -> S;

    /// The angles of the pose about x, y and z.
    spec fn rotation(&self) -> Vector3d<S>;

    /// The place of the solid in the world.
    spec fn offset(&self) -> Vector3d<S>;

    /// The edges in the local frame, in their fixed order.
    fn get_edges(&self) -> (edges: Vec<Edge>)
        ensures
            edges@ == self.edges(),
    ;

    fn get_scale(&self) -> (scale: S)
        ensures
            scale == self.scale(),
    ;

    /// Replaces the scale and nothing else.
    fn set_scale(&mut self, scale: S)
        ensures
            final(self).scale() == scale,
            final(self).rotation() == old(self).rotation(),
            final(self).offset() == old(self).offset(),
            final(self).edges() == old(self).edges(),
    ;

    fn get_rotation(&self) -> (rotation: Vector3d<S>)
        ensures
            rotation == self.rotation(),
    ;

    /// Replaces the rotation and nothing else.
    fn set_rotation(&mut self, rotation: Vector3d<S>)
        ensures
            final(self).rotation() == rotation,
            final(self).scale() == old(self).scale(),
            final(self).offset() == old(self).offset(),
            final(self).edges() == old(self).edges(),
    ;

    fn get_offset(&self) -> (offset: Vector3d<S>)
        ensures
            offset == self.offset(),
    ;

    /// Replaces the offset and nothing else.
    fn set_offset(&mut self, offset: Vector3d<S>)
        ensures
            final(self).offset() == offset,
            final(self).scale() == old(self).scale(),
            final(self).rotation() == old(self).rotation(),
            final(self).edges() == old(self).edges(),
    ;

    /// Adds `angles` to the rotation, component by component.
    fn rotate(&mut self, angles: Vector3d<S>) where S: Add<Output = S>
        requires
            can_sum(old(self).rotation(), angles),
        ensures
            S::obeys_add_spec() ==> final(self).rotation() == vector_sum(
                old(self).rotation(),
                angles,
            ),
            final(self).scale() == old(self).scale(),
            final(self).offset() == old(self).offset(),
            final(self).edges() == old(self).edges(),
    {
        let (angle_x, angle_y, angle_z) = angles;
        let (x, y, z) = self.get_rotation();
        self.set_rotation((x + angle_x, y + angle_y, z + angle_z));
    }

    /// Adds `offset` to the offset, component by component.
    fn shift(&mut self, offset: Vector3d<S>) where S: Add<Output = S>
        requires
            can_sum(old(self).offset(), offset),
        ensures
            S::obeys_add_spec() ==> final(self).offset() == vector_sum(old(self).offset(), offset),
            final(self).scale() == old(self).scale(),
            final(self).rotation() == old(self).rotation(),
            final(self).edges() == old(self).edges(),
    {
        let (offset_x, offset_y, offset_z) = offset;
        let (x, y, z) = self.get_offset();
        self.set_offset((x + offset_x, y + offset_y, z + offset_z));
    }
}

/// Whether `c` is one of the eight corners of the unit cube: every
/// coordinate is 1 or -1.
pub open spec fn is_corner(c: Corner) -> bool {
    &&& (c.0 == 1 || c.0 == -1)
    &&& (c.1 == 1 || c.1 == -1)
    &&& (c.2 == 1 || c.2 == -1)
}

/// Whether `a` and `b` are corners of the unit cube that differ along exactly
/// one axis, that is, the two ends of one of its sides.
pub open spec fn adjacent(a: Corner, b: Corner) -> bool {
    &&& is_corner(a)
    &&& is_corner(b)
    &&& {
        ||| (a.0 != b.0 && a.1 == b.1 && a.2 == b.2)
        ||| (a.0 == b.0 && a.1 != b.1 && a.2 == b.2)
        ||| (a.0 == b.0 && a.1 == b.1 && a.2 != b.2)
    }
}

/// Whether `e` runs between `a` and `b`, in either direction.
pub open spec fn joins(e: Edge, a: Corner, b: Corner) -> bool {
    (e.0 == a && e.1 == b) || (e.0 == b && e.1 == a)
}

/// The twelve sides of the unit cube, a ring at z = -1, a ring at z = 1 and
/// the four lines between them, in the order in which they are drawn.
pub open spec fn cube_edges() -> Seq<Edge> {
    seq![
        ((-1i8, -1i8, -1i8), (-1i8, 1i8, -1i8)),
        ((-1i8, 1i8, -1i8), (1i8, 1i8, -1i8)),
        ((1i8, 1i8, -1i8), (1i8, -1i8, -1i8)),
        ((-1i8, -1i8, -1i8), (1i8, -1i8, -1i8)),
        ((-1i8, -1i8, -1i8), (-1i8, -1i8, 1i8)),
        ((-1i8, -1i8, 1i8), (-1i8, 1i8, 1i8)),
        ((-1i8, 1i8, -1i8), (-1i8, 1i8, 1i8)),
        ((-1i8, 1i8, 1i8), (1i8, 1i8, 1i8)),
        ((1i8, 1i8, 1i8), (1i8, -1i8, 1i8)),
        ((-1i8, -1i8, 1i8), (1i8, -1i8, 1i8)),
        ((1i8, 1i8, -1i8), (1i8, 1i8, 1i8)),
        ((1i8, -1i8, -1i8), (1i8, -1i8, 1i8)),
    ]
}

/// A cube with corners at (±1, ±1, ±1) in its own frame.
#[derive(Debug, PartialEq)]
pub struct Cube<S> {
    pub offset: Vector3d<S>,
    pub rotation: Vector3d<S>,
    pub scale: S,
}

impl<S: Copy> Clone for Cube<S> {
    fn clone(&self) -> (copy: Self)
        ensures
            copy == *self,
    {
        Cube { offset: self.offset, rotation: self.rotation, scale: self.scale }
    }
}

impl<S: Copy> Polytope<S> for Cube<S> {
    open spec fn edges(&self) -> Seq<Edge> {
        cube_edges()
    }

    open spec fn scale(&self) -> S {
        self.scale
    }

    open spec fn rotation(&self) -> Vector3d<S> {
        self.rotation
    }

    open spec fn offset(&self) -> Vector3d<S> {
        self.offset
    }

    fn get_edges(&self) -> (edges: Vec<Edge>) {
        let l1: Corner = (-1, -1, -1);
        let l2: Corner = (-1, 1, -1);
        let l3: Corner = (1, 1, -1);
        let l4: Corner = (1, -1, -1);
        let u1: Corner = (-1, -1, 1);
        let u2: Corner = (-1, 1, 1);
        let u3: Corner = (1, 1, 1);
        let u4: Corner = (1, -1, 1);

        let edges = vec![
            (l1, l2),
            (l2, l3),
            (l3, l4),
            (l1, l4),
            (l1, u1),
            (u1, u2),
            (l2, u2),
            (u2, u3),
            (u3, u4),
            (u1, u4),
            (l3, u3),
            (l4, u4),
        ];
        edges
    }

    fn get_scale(&self) -> (scale: S) {
        self.scale
    }

    fn set_scale(&mut self, scale: S) {
        self.scale = scale;
    }

    fn get_rotation(&self) -> (rotation: Vector3d<S>) {
        self.rotation
    }

    fn set_rotation(&mut self, rotation: Vector3d<S>) {
        self.rotation = rotation;
    }

    fn get_offset(&self) -> (offset: Vector3d<S>) {
        self.offset
    }

    fn set_offset(&mut self, offset: Vector3d<S>) {
        self.offset = offset;
    }
}

/// The image of `c` under the reflection that flips the x axis.
pub open spec fn mirror_x(c: Corner) -> Corner {
    ((-c.0) as i8, c.1, c.2)
}

/// The image of `c` under the reflection that flips the y axis.
pub open spec fn mirror_y(c: Corner) -> Corner {
    (c.0, (-c.1) as i8, c.2)
}

/// The cube has twelve edges, and each of them is a side of the unit cube: it
/// runs between two of the corners (±1, ±1, ±1) that differ along one axis.
pub proof fn lemma_cube_edges_are_sides()
    ensures
        cube_edges().len() == 12,
        forall|i: int|
            0 <= i < 12 ==> adjacent(#[trigger] cube_edges()[i].0, cube_edges()[i].1),
{
    let edges = cube_edges();
    assert(adjacent(edges[0].0, edges[0].1));
    assert(adjacent(edges[1].0, edges[1].1));
    assert(adjacent(edges[2].0, edges[2].1));
    assert(adjacent(edges[3].0, edges[3].1));
    assert(adjacent(edges[4].0, edges[4].1));
    assert(adjacent(edges[5].0, edges[5].1));
    assert(adjacent(edges[6].0, edges[6].1));
    assert(adjacent(edges[7].0, edges[7].1));
    assert(adjacent(edges[8].0, edges[8].1));
    assert(adjacent(edges[9].0, edges[9].1));
    assert(adjacent(edges[10].0, edges[10].1));
    assert(adjacent(edges[11].0, edges[11].1));
}

/// Every side of the unit cube is drawn: whichever two corners differ along
/// one axis, some edge of the cube runs between them.
pub proof fn lemma_cube_sides_are_edges(a: Corner, b: Corner)
    requires
        adjacent(a, b),
    ensures
        exists|i: int| 0 <= i < 12 && joins(#[trigger] cube_edges()[i], a, b),
{
    let edges = cube_edges();
    let i: int = if joins(edges[0], a, b) {
        0
    } else if joins(edges[1], a, b) {
        1
    } else if joins(edges[2], a, b) {
        2
    } else if joins(edges[3], a, b) {
        3
    } else if joins(edges[4], a, b) {
        4
    } else if joins(edges[5], a, b) {
        5
    } else if joins(edges[6], a, b) {
        6
    } else if joins(edges[7], a, b) {
        7
    } else if joins(edges[8], a, b) {
        8
    } else if joins(edges[9], a, b) {
        9
    } else if joins(edges[10], a, b) {
        10
    } else {
        11
    };
    assert(joins(edges[i], a, b));
}

/// No side is drawn twice: two different edges of the cube never run between
/// the same two corners, in either direction.
pub proof fn lemma_cube_edges_distinct(i: int, j: int)
    requires
        0 <= i < 12,
        0 <= j < 12,
        i != j,
    ensures
        !joins(cube_edges()[j], cube_edges()[i].0, cube_edges()[i].1),
{
    let edges = cube_edges();
    assert(edges[0] == ((-1i8, -1i8, -1i8), (-1i8, 1i8, -1i8)));
    assert(edges[1] == ((-1i8, 1i8, -1i8), (1i8, 1i8, -1i8)));
    assert(edges[2] == ((1i8, 1i8, -1i8), (1i8, -1i8, -1i8)));
    assert(edges[3] == ((-1i8, -1i8, -1i8), (1i8, -1i8, -1i8)));
    assert(edges[4] == ((-1i8, -1i8, -1i8), (-1i8, -1i8, 1i8)));
    assert(edges[5] == ((-1i8, -1i8, 1i8), (-1i8, 1i8, 1i8)));
    assert(edges[6] == ((-1i8, 1i8, -1i8), (-1i8, 1i8, 1i8)));
    assert(edges[7] == ((-1i8, 1i8, 1i8), (1i8, 1i8, 1i8)));
    assert(edges[8] == ((1i8, 1i8, 1i8), (1i8, -1i8, 1i8)));
    assert(edges[9] == ((-1i8, -1i8, 1i8), (1i8, -1i8, 1i8)));
    assert(edges[10] == ((1i8, 1i8, -1i8), (1i8, 1i8, 1i8)));
    assert(edges[11] == ((1i8, -1i8, -1i8), (1i8, -1i8, 1i8)));
}

/// The cube's wireframe is its own mirror image, left to right and top to
/// bottom: flipping the x axis, or the y axis, carries every edge onto an
/// edge of the cube.
pub proof fn lemma_cube_edges_mirror(i: int)
    requires
        0 <= i < 12,
    ensures
        exists|j: int|
            0 <= j < 12 && joins(
                #[trigger] cube_edges()[j],
                mirror_x(cube_edges()[i].0),
                mirror_x(cube_edges()[i].1),
            ),
        exists|j: int|
            0 <= j < 12 && joins(
                #[trigger] cube_edges()[j],
                mirror_y(cube_edges()[i].0),
                mirror_y(cube_edges()[i].1),
            ),
{
    lemma_cube_edges_are_sides();
    let e = cube_edges()[i];
    assert(adjacent(e.0, e.1));
    lemma_cube_sides_are_edges(mirror_x(e.0), mirror_x(e.1));
    lemma_cube_sides_are_edges(mirror_y(e.0), mirror_y(e.1));
}

/// The edges of a cube do not depend on its pose: any two cubes, however
/// they were moved, turned or scaled, have the same twelve edges.
pub proof fn lemma_cube_edges_ignore_pose<S: Copy>(a: Cube<S>, b: Cube<S>)
    ensures
        a.edges() == b.edges(),
        a.edges() == cube_edges(),
{
}

/// Whether `a`, `b` and `c` add up to the same whichever two of them are
/// added first. Sums that are exact always do; sums that round may not.
pub open spec fn regroups<S: Add<Output = S>>(a: S, b: S, c: S) -> bool {
    a.add_spec(b).add_spec(c) == a.add_spec(b.add_spec(c))
}

/// Turning (or moving) twice is turning (or moving) once by the sum: adding
/// `first` and then `second` to `start` gives what adding `first + second`
/// gives, on every axis along which the three values regroup.
pub proof fn lemma_sums_accumulate<S: Add<Output = S>>(
    start: Vector3d<S>,
    first: Vector3d<S>,
    second: Vector3d<S>,
)
    requires
        regroups(start.0, first.0, second.0),
        regroups(start.1, first.1, second.1),
        regroups(start.2, first.2, second.2),
    ensures
        vector_sum(vector_sum(start, first), second) == vector_sum(
            start,
            vector_sum(first, second),
        ),
{
}

/// Whole numbers regroup wherever their sums stay in range, so a pose kept
/// in whole units accumulates its turns and moves exactly.
pub proof fn lemma_whole_sums_regroup(a: i64, b: i64, c: i64)
    requires
        a.add_req(b),
        b.add_req(c),
        a.add_spec(b).add_req(c),
    ensures
        a.add_req(b.add_spec(c)),
        regroups(a, b, c),
{
}

} // verus!
