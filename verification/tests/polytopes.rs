use threedy::polytopes::{Corner, Cube, Edge, Polytope};

fn unit_cube() -> Cube<f64> {
    Cube { offset: (0.0, 0.0, 5.0), rotation: (0.0, 0.0, 0.0), scale: 1.0 }
}

fn is_corner(c: Corner) -> bool {
    (c.0 == 1 || c.0 == -1) && (c.1 == 1 || c.1 == -1) && (c.2 == 1 || c.2 == -1)
}

fn axes_that_differ(a: Corner, b: Corner) -> usize {
    (a.0 != b.0) as usize + (a.1 != b.1) as usize + (a.2 != b.2) as usize
}

fn has_edge(edges: &[Edge], a: Corner, b: Corner) -> bool {
    edges.iter().any(|e| (e.0 == a && e.1 == b) || (e.0 == b && e.1 == a))
}

#[test]
fn cube_has_twelve_edges() {
    assert_eq!(unit_cube().get_edges().len(), 12);
}

#[test]
fn cube_edges_in_drawing_order() {
    let l1 = (-1, -1, -1);
    let l2 = (-1, 1, -1);
    let l3 = (1, 1, -1);
    let l4 = (1, -1, -1);
    let u1 = (-1, -1, 1);
    let u2 = (-1, 1, 1);
    let u3 = (1, 1, 1);
    let u4 = (1, -1, 1);
    let expected: Vec<Edge> = vec![
        (l1, l2),
        (l2, l3),
        (l3, l4),
        (l1, l4),
        (l1, u1),
        (u1, u2),
        (l2, u2),
        (u2, u3),
        (u3, u4),
        (u1, u4),
        (l3, u3),
        (l4, u4),
    ];
    assert_eq!(unit_cube().get_edges(), expected);
}

#[test]
fn cube_edges_join_neighbouring_corners() {
    for (a, b) in unit_cube().get_edges() {
        assert!(is_corner(a));
        assert!(is_corner(b));
        assert_eq!(axes_that_differ(a, b), 1);
    }
}

#[test]
fn cube_edges_cover_every_side_once() {
    let edges = unit_cube().get_edges();
    let signs = [-1i8, 1i8];
    let mut sides = 0;
    for x in signs {
        for y in signs {
            for z in signs {
                let a = (x, y, z);
                for b in [(-x, y, z), (x, -y, z), (x, y, -z)] {
                    assert!(has_edge(&edges, a, b));
                    sides += 1;
                }
            }
        }
    }
    assert_eq!(sides, 24);
    for (i, e) in edges.iter().enumerate() {
        for (j, f) in edges.iter().enumerate() {
            if i != j {
                assert!(!((f.0 == e.0 && f.1 == e.1) || (f.0 == e.1 && f.1 == e.0)));
            }
        }
    }
}

#[test]
fn cube_edges_are_their_own_mirror_image() {
    let edges = unit_cube().get_edges();
    for (a, b) in edges.iter().copied() {
        assert!(has_edge(&edges, (-a.0, a.1, a.2), (-b.0, b.1, b.2)));
        assert!(has_edge(&edges, (a.0, -a.1, a.2), (b.0, -b.1, b.2)));
    }
}

#[test]
fn cube_edges_do_not_depend_on_the_pose() {
    let mut cube = unit_cube();
    let before = cube.get_edges();
    cube.rotate((0.3, -1.2, 7.0));
    assert_eq!(cube.get_edges(), before);
    cube.shift((10.0, -20.0, 30.0));
    assert_eq!(cube.get_edges(), before);
    cube.set_scale(42.5);
    assert_eq!(cube.get_edges(), before);
    cube.set_rotation((f64::INFINITY, f64::NAN, -0.0));
    cube.set_offset((f64::NAN, f64::NEG_INFINITY, 1.0e300));
    assert_eq!(cube.get_edges(), before);
    let other: Cube<i32> = Cube { offset: (1, 2, 3), rotation: (4, 5, 6), scale: 7 };
    assert_eq!(other.get_edges(), before);
}

#[test]
fn getters_read_the_fields() {
    let cube = Cube { offset: (1.5, -2.5, 3.5), rotation: (0.1, 0.2, 0.3), scale: 4.0 };
    assert_eq!(cube.get_offset(), (1.5, -2.5, 3.5));
    assert_eq!(cube.get_rotation(), (0.1, 0.2, 0.3));
    assert_eq!(cube.get_scale(), 4.0);
}

#[test]
fn set_offset_round_trip() {
    let mut cube = unit_cube();
    cube.set_offset((1.25, -7.5, 1.0e-300));
    assert_eq!(cube.get_offset(), (1.25, -7.5, 1.0e-300));
    assert_eq!(cube.get_rotation(), (0.0, 0.0, 0.0));
    assert_eq!(cube.get_scale(), 1.0);
}

#[test]
fn set_rotation_round_trip() {
    let mut cube = unit_cube();
    cube.set_rotation((100.0, -0.001, 6.5));
    assert_eq!(cube.get_rotation(), (100.0, -0.001, 6.5));
    assert_eq!(cube.get_offset(), (0.0, 0.0, 5.0));
    assert_eq!(cube.get_scale(), 1.0);
}

#[test]
fn set_scale_round_trip() {
    let mut cube = unit_cube();
    cube.set_scale(-3.75);
    assert_eq!(cube.get_scale(), -3.75);
    assert_eq!(cube.get_offset(), (0.0, 0.0, 5.0));
    assert_eq!(cube.get_rotation(), (0.0, 0.0, 0.0));
}

#[test]
fn setters_accept_values_that_are_not_finite() {
    let mut cube = unit_cube();
    cube.set_scale(f64::NAN);
    assert!(cube.get_scale().is_nan());
    cube.set_scale(f64::INFINITY);
    assert_eq!(cube.get_scale(), f64::INFINITY);
    cube.set_offset((f64::NEG_INFINITY, f64::NAN, 0.0));
    let (x, y, z) = cube.get_offset();
    assert_eq!(x, f64::NEG_INFINITY);
    assert!(y.is_nan());
    assert_eq!(z, 0.0);
    cube.set_rotation((f64::NAN, f64::INFINITY, -0.0));
    let (rx, ry, rz) = cube.get_rotation();
    assert!(rx.is_nan());
    assert_eq!(ry, f64::INFINITY);
    assert_eq!(rz.to_bits(), (-0.0f64).to_bits());
}

#[test]
fn rotate_adds_angles() {
    let mut cube = unit_cube();
    cube.rotate((0.25, 0.5, 1.0));
    assert_eq!(cube.get_rotation(), (0.25, 0.5, 1.0));
    cube.rotate((0.25, -0.5, 2.0));
    assert_eq!(cube.get_rotation(), (0.5, 0.0, 3.0));
    assert_eq!(cube.get_offset(), (0.0, 0.0, 5.0));
    assert_eq!(cube.get_scale(), 1.0);
}

#[test]
fn shift_adds_offsets() {
    let mut cube = unit_cube();
    cube.shift((1.0, -2.0, 0.5));
    assert_eq!(cube.get_offset(), (1.0, -2.0, 5.5));
    cube.shift((-1.0, -2.0, -5.5));
    assert_eq!(cube.get_offset(), (0.0, -4.0, 0.0));
    assert_eq!(cube.get_rotation(), (0.0, 0.0, 0.0));
    assert_eq!(cube.get_scale(), 1.0);
}

#[test]
fn rotating_twice_is_rotating_by_the_sum() {
    let first = (0.5, 1.25, -3.0);
    let second = (2.0, 0.125, 8.0);
    let mut twice = unit_cube();
    twice.rotate(first);
    twice.rotate(second);
    let mut once = unit_cube();
    once.rotate((first.0 + second.0, first.1 + second.1, first.2 + second.2));
    assert_eq!(twice.get_rotation(), once.get_rotation());
    assert_eq!(once.get_rotation(), (2.5, 1.375, 5.0));
}

#[test]
fn shifting_twice_is_shifting_by_the_sum() {
    let first = (16.0, -0.75, 3.0);
    let second = (-8.0, 0.25, 1024.0);
    let mut twice = unit_cube();
    twice.shift(first);
    twice.shift(second);
    let mut once = unit_cube();
    once.shift((first.0 + second.0, first.1 + second.1, first.2 + second.2));
    assert_eq!(twice.get_offset(), once.get_offset());
    assert_eq!(once.get_offset(), (8.0, -0.5, 1032.0));
}

#[test]
fn rotation_is_not_wrapped_to_a_full_turn() {
    let mut cube = unit_cube();
    for _ in 0..100 {
        cube.rotate((1.0, 2.0, 4.0));
    }
    assert_eq!(cube.get_rotation(), (100.0, 200.0, 400.0));
}

#[test]
fn whole_number_poses_accumulate() {
    let mut cube: Cube<i64> = Cube { offset: (0, 0, 5), rotation: (0, 0, 0), scale: 1 };
    cube.rotate((3, -4, 5));
    cube.rotate((10, 20, 30));
    cube.shift((1, 1, 1));
    cube.shift((-2, -2, -2));
    assert_eq!(cube.get_rotation(), (13, 16, 35));
    assert_eq!(cube.get_offset(), (-1, -1, 4));
}

#[test]
fn clone_keeps_the_pose() {
    let cube = Cube { offset: (1.0, 2.0, 3.0), rotation: (4.0, 5.0, 6.0), scale: 7.0 };
    let copy = cube.clone();
    assert_eq!(copy, cube);
}

#[test]
fn sums_that_round_need_not_accumulate() {
    let mut twice: Cube<f64> = Cube { offset: (0.0, 0.0, 0.0), rotation: (1.0e16, 0.0, 0.0), scale: 1.0 };
    twice.rotate((-1.0e16, 0.0, 0.0));
    twice.rotate((1.0, 0.0, 0.0));
    let mut once: Cube<f64> = Cube { offset: (0.0, 0.0, 0.0), rotation: (1.0e16, 0.0, 0.0), scale: 1.0 };
    once.rotate((-1.0e16 + 1.0, 0.0, 0.0));
    assert_eq!(twice.get_rotation(), (1.0, 0.0, 0.0));
    assert_eq!(once.get_rotation(), (0.0, 0.0, 0.0));
}
