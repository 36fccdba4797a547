use scad_dots::align::{CuboidAlign, CylinderAlign, DotAlign, LevelWeights, PostAlign, RectAlign};
use scad_dots::axes::{Axis, ColorSpec, Corner1, Corner2, Corner3, CubeFace, RectEdge, Weights};
use scad_dots::error::ScadDotsError;

#[test]
fn axis_index_orders_coordinates() {
    assert_eq!(Axis::X.index(), 0);
    assert_eq!(Axis::Y.index(), 1);
    assert_eq!(Axis::Z.index(), 2);
}

#[test]
fn rect_edges() {
    assert!(!RectEdge::X0.is_high());
    assert!(RectEdge::Y1.is_high());
    assert_eq!(RectEdge::Y0.axis(), Axis::Y);
    assert!(RectEdge::X1.is_x());
    assert!(!RectEdge::Y1.is_x());
}

#[test]
fn corner2_clockwise_rotation() {
    assert_eq!(
        Corner2::all_clockwise(),
        vec![Corner2::P00, Corner2::P01, Corner2::P11, Corner2::P10]
    );
    assert_eq!(
        Corner2::all_clockwise_from(Corner2::P11),
        vec![Corner2::P11, Corner2::P10, Corner2::P00, Corner2::P01]
    );
}

#[test]
fn corner2_has_no_z() {
    assert_eq!(Corner2::P01.is_high(Axis::Y), Ok(true));
    assert_eq!(Corner2::P01.is_high(Axis::X), Ok(false));
    assert_eq!(Corner2::P01.is_high(Axis::Z), Err(ScadDotsError::Args));
}

#[test]
fn corner_conversions() {
    assert_eq!(Corner2::P10.to_c3(Corner1::P1), Corner3::P101);
    assert_eq!(Corner3::from(Corner2::P01), Corner3::P010);
    assert_eq!(Corner2::from(Corner3::P111), Corner2::P11);
    assert_eq!(Corner1::from(Corner3::P001), Corner1::P1);
    assert_eq!(Corner1::from(Corner3::P110), Corner1::P0);
    assert_eq!(Corner3::from(Axis::Y), Corner3::P010);
}

#[test]
fn corner3_copy_and_invert() {
    assert_eq!(Corner3::P000.copy_to(Axis::Y, true), Corner3::P010);
    assert_eq!(Corner3::P111.copy_to(Axis::X, false), Corner3::P011);
    assert_eq!(Corner3::P100.copy_invert(Axis::X), Corner3::P000);
    assert_eq!(Corner3::P100.copy_invert_all_axes(), Corner3::P011);
    assert!(Corner3::P101.is_high(Axis::Z));
    assert!(!Corner3::P101.is_high(Axis::Y));
    assert_eq!(Corner3::all().len(), 8);
    assert_eq!(Corner3::P110.to_bools(), (true, true, false));
    assert_eq!(Corner3::from_bools((false, true, true)), Corner3::P011);
}

#[test]
fn cube_faces() {
    assert_eq!(CubeFace::Y0.corners(), (Corner3::P000, Corner3::P101));
    assert_eq!(CubeFace::Z1.axis(), Axis::Z);
    assert!(CubeFace::Z1.is_high());
    assert!(!CubeFace::X0.is_high());
    assert_eq!(CubeFace::all().len(), 6);
}

#[test]
fn color_names() {
    assert_eq!(ColorSpec::Red.name(), "red");
    assert_eq!(ColorSpec::Green.name(), "green");
}

#[test]
fn error_messages() {
    assert_eq!(ScadDotsError::Chain.message(), "Need at least 2 elements to chain");
    assert_eq!(
        ScadDotsError::Midpoint.message(),
        "A Midpoint can only be made from 2 Corners."
    );
}

#[test]
fn dot_alignments() {
    assert_eq!(DotAlign::origin(), DotAlign::Corner(Corner3::P000));
    assert_eq!(DotAlign::centroid(), DotAlign::Midpoint(Corner3::P000, Corner3::P111));
    assert_eq!(DotAlign::center_solid(), DotAlign::centroid());
    assert_eq!(
        DotAlign::center_face(CubeFace::Z0),
        DotAlign::Midpoint(Corner3::P000, Corner3::P110)
    );
    assert_eq!(DotAlign::from(Corner3::P011), DotAlign::Corner(Corner3::P011));
}

#[test]
fn midpoint_of_midpoints_fails() {
    let corner = RectAlign::outside(Corner3::P000);
    let mid = RectAlign::centroid();
    assert_eq!(RectAlign::midpoint(mid, mid), Err(ScadDotsError::Midpoint));
    assert_eq!(RectAlign::midpoint(corner, mid), Err(ScadDotsError::Midpoint));
    let c = CuboidAlign::centroid();
    assert_eq!(CuboidAlign::midpoint(c, c), Err(ScadDotsError::Midpoint));
    let p = PostAlign::outside_midpoint(Corner3::P000, Corner3::P111);
    assert_eq!(PostAlign::midpoint(p, p), Err(ScadDotsError::Midpoint));
}

#[test]
fn midpoint_of_corners_succeeds() {
    let a = RectAlign::outside(Corner3::P000);
    let b = RectAlign::outside(Corner3::P111);
    assert_eq!(RectAlign::midpoint(a, b), Ok(RectAlign::centroid()));
    let c = CuboidAlign::outside(Corner3::P000);
    let d = CuboidAlign::outside(Corner3::P111);
    assert_eq!(CuboidAlign::midpoint(c, d), Ok(CuboidAlign::centroid()));
    let e = PostAlign::origin();
    let f = PostAlign::outside(Corner3::P111);
    assert_eq!(
        PostAlign::midpoint(e, f),
        Ok(PostAlign::outside_midpoint(Corner3::P000, Corner3::P111))
    );
}

#[test]
fn rect_inside_corner_faces_inwards() {
    assert_eq!(
        RectAlign::inside(Corner3::P001),
        RectAlign::Corner { rect: Corner2::P00, dot: Corner3::P111 }
    );
    assert_eq!(
        RectAlign::outside(Corner3::P101),
        RectAlign::Corner { rect: Corner2::P10, dot: Corner3::P101 }
    );
    assert_eq!(RectAlign::origin(), RectAlign::outside(Corner3::P000));
    assert_eq!(
        RectAlign::inside_midpoint(Corner3::P000, Corner3::P110),
        RectAlign::Midpoint {
            rect_a: Corner2::P00,
            dot_a: Corner3::P110,
            rect_b: Corner2::P11,
            dot_b: Corner3::P000,
        }
    );
    assert_eq!(
        RectAlign::center_face(CubeFace::Z1),
        RectAlign::outside_midpoint(Corner3::P001, Corner3::P111)
    );
}

#[test]
fn rect_all_corners() {
    let all = RectAlign::all_corners();
    assert_eq!(all.len(), 32);
    assert_eq!(all[0], RectAlign::Corner { rect: Corner2::P00, dot: Corner3::P000 });
    assert_eq!(all[5], RectAlign::Corner { rect: Corner2::P01, dot: Corner3::P010 });
}

#[test]
fn cuboid_alignments() {
    assert_eq!(
        CuboidAlign::inside(Corner3::P100),
        CuboidAlign::Corner { cuboid: Corner3::P100, dot: Corner3::P011 }
    );
    assert_eq!(CuboidAlign::origin(), CuboidAlign::outside(Corner3::P000));
    assert_eq!(
        CuboidAlign::center_face(CubeFace::X1),
        CuboidAlign::outside_midpoint(Corner3::P100, Corner3::P111)
    );
    assert_eq!(
        CuboidAlign::center_inside_face(CubeFace::Z0),
        CuboidAlign::inside_midpoint(Corner3::P000, Corner3::P110)
    );
    let all = CuboidAlign::all_corners();
    assert_eq!(all.len(), 64);
    assert_eq!(all[9], CuboidAlign::Corner { cuboid: Corner3::P010, dot: Corner3::P010 });
}

#[test]
fn cuboid_align_to_rect_align() {
    let a = CuboidAlign::outside(Corner3::P111);
    assert_eq!(
        RectAlign::from(a),
        RectAlign::Corner { rect: Corner2::P11, dot: Corner3::P111 }
    );
}

#[test]
fn post_alignments() {
    assert_eq!(
        PostAlign::outside(Corner3::P011),
        PostAlign::Corner { post: Corner1::P1, dot: Corner3::P011 }
    );
    assert_eq!(
        PostAlign::origin(),
        PostAlign::Corner { post: Corner1::P0, dot: Corner3::P000 }
    );
}

fn w(x: u8, y: u8, z: u8) -> Weights {
    Weights { x, y, z }
}

#[test]
fn corner_weights_are_twice_the_unit_vector() {
    assert_eq!(Weights::of_corner3(Corner3::P101), w(2, 0, 2));
    assert_eq!(Weights::of_corner2(Corner2::P01), w(0, 2, 0));
    assert_eq!(Weights::of_corner1(Corner1::P1), w(0, 0, 2));
    assert_eq!(Weights::mean(w(2, 0, 2), w(0, 0, 2)), w(1, 0, 2));
}

#[test]
fn dot_alignment_weights() {
    assert_eq!(DotAlign::origin().weights(), w(0, 0, 0));
    assert_eq!(DotAlign::Corner(Corner3::P110).weights(), w(2, 2, 0));
    assert_eq!(DotAlign::centroid().weights(), w(1, 1, 1));
    assert_eq!(DotAlign::center_face(CubeFace::Z1).weights(), w(1, 1, 2));
    assert_eq!(DotAlign::center_face(CubeFace::X0).weights(), w(0, 1, 1));
}

#[test]
fn composite_alignment_weights() {
    assert_eq!(
        RectAlign::inside(Corner3::P001).weights(),
        LevelWeights { outer: w(0, 0, 0), dot: w(2, 2, 2) }
    );
    assert_eq!(
        RectAlign::centroid().weights(),
        LevelWeights { outer: w(1, 1, 0), dot: w(1, 1, 1) }
    );
    assert_eq!(
        CuboidAlign::centroid().weights(),
        LevelWeights { outer: w(1, 1, 1), dot: w(1, 1, 1) }
    );
    assert_eq!(
        CuboidAlign::inside(Corner3::P111).weights(),
        LevelWeights { outer: w(2, 2, 2), dot: w(0, 0, 0) }
    );
    assert_eq!(
        PostAlign::outside(Corner3::P111).weights(),
        LevelWeights { outer: w(0, 0, 2), dot: w(2, 2, 2) }
    );
    assert_eq!(
        PostAlign::outside_midpoint(Corner3::P000, Corner3::P111).weights(),
        LevelWeights { outer: w(0, 0, 1), dot: w(1, 1, 1) }
    );
}

#[test]
fn cylinder_alignment_heights() {
    assert_eq!(CylinderAlign::EndCenter(Corner1::P0).height_halves(), 0);
    assert_eq!(CylinderAlign::EndCenter(Corner1::P1).height_halves(), 2);
    assert_eq!(CylinderAlign::Centroid.height_halves(), 1);
}
