use vstd::prelude::*;

use crate::axes::{
    all_corner3, clockwise_corners, Axis, Corner1, Corner2, Corner3, CubeFace, Weights,
};
use crate::error::ScadDotsError;

verus! {

/// A reference point on a single Dot: one of its corners, or the midpoint of
/// two of them.
#[derive(Debug, Clone, Copy, PartialEq, Eq, Structural)]
pub enum DotAlign {
    Corner(Corner3),
    Midpoint(Corner3, Corner3),
}

/// A reference point on a Rect: a corner of one of its four Dots, or the
/// midpoint of two such corners.
#[derive(Debug, Clone, Copy, PartialEq, Eq, Structural)]
pub enum RectAlign {
    Corner { rect: Corner2, dot: Corner3 },
    Midpoint { rect_a: Corner2, dot_a: Corner3, rect_b: Corner2, dot_b: Corner3 },
}

/// A reference point on a Cuboid: a corner of one of its eight Dots, or the
/// midpoint of two such corners.
#[derive(Debug, Clone, Copy, PartialEq, Eq, Structural)]
pub enum CuboidAlign {
    Corner { cuboid: Corner3, dot: Corner3 },
    Midpoint { cuboid_a: Corner3, dot_a: Corner3, cuboid_b: Corner3, dot_b: Corner3 },
}

/// A reference point on a Post: a corner of its top or bottom Dot, or the
/// midpoint of two such corners.
#[derive(Debug, Clone, Copy, PartialEq, Eq, Structural)]
pub enum PostAlign {
    Corner { post: Corner1, dot: Corner3 },
    Midpoint { post_a: Corner1, dot_a: Corner3, post_b: Corner1, dot_b: Corner3 },
}

/// A reference point on a Cylinder, independent of its dimensions.
#[derive(Debug, Clone, Copy, PartialEq, Eq, Structural)]
pub enum CylinderAlign {
    /// The center of the bottom (`P0`) or top (`P1`) circle.
    EndCenter(Corner1),
    /// The center of the circular cross-section at half of the height.
    Centroid,
}

impl DotAlign {
    /// Align to the Dot's canonical anchor, its `P000` corner.
    pub fn origin() -> (r: DotAlign)
        ensures
            r == DotAlign::Corner(Corner3::P000),
    {
        DotAlign::from(Corner3::P000)
    }

    /// Align to the center of mass.
    pub fn centroid() -> (r: DotAlign)
        ensures
            r == DotAlign::Midpoint(Corner3::P000, Corner3::P111),
    {
        DotAlign::Midpoint(Corner3::P000, Corner3::P111)
    }

    /// Align to the center of mass; the same point as `centroid`.
    pub fn center_solid() -> (r: DotAlign)
        ensures
            r == DotAlign::Midpoint(Corner3::P000, Corner3::P111),
    {
        DotAlign::centroid()
    }

    /// Align to the center of the given face.
    pub fn center_face(face: CubeFace) -> (r: DotAlign)
        ensures
            r == DotAlign::Midpoint(face.spec_corners().0, face.spec_corners().1),
    {
        let (a, b) = face.corners();
        DotAlign::Midpoint(a, b)
    }
}

impl DotAlign {
    /// The offset from the Dot's anchor to this point, in halves of the
    /// Dot's size along each of its own axes.
    pub open spec fn spec_weights(self) -> Weights {
        match self {
            DotAlign::Corner(a) => Weights::spec_of_corner3(a),
            DotAlign::Midpoint(a, b) => Weights::spec_mean(
                Weights::spec_of_corner3(a),
                Weights::spec_of_corner3(b),
            ),
        }
    }

    /// The offset from the Dot's anchor to this point, in halves of the
    /// Dot's size along each of its own axes: a corner is reached by the
    /// corner's unit vector, a midpoint by the mean of two of them.
    pub fn weights(self) -> (r: Weights)
        ensures
            r == self.spec_weights(),
            r.wf(),
    {
        match self {
            DotAlign::Corner(a) => Weights::of_corner3(a),
            DotAlign::Midpoint(a, b) => Weights::mean(Weights::of_corner3(a), Weights::of_corner3(b)),
        }
    }
}

/// A corner alignment spans the whole of the Dot's size along each axis on
/// which the corner is high, and none of it along the others: the offset of
/// corner `c` is the Dot's size times the unit vector of `c`.
pub proof fn lemma_corner_weights(c: Corner3)
    ensures
        DotAlign::Corner(c).spec_weights() == (Weights {
            x: if c.spec_is_high(Axis::X) { 2u8 } else { 0u8 },
            y: if c.spec_is_high(Axis::Y) { 2u8 } else { 0u8 },
            z: if c.spec_is_high(Axis::Z) { 2u8 } else { 0u8 },
        }),
{
}

/// Over the eight corners of a Dot, the offset along each axis is always
/// none or all of the Dot's size, and both occur: an unrotated Dot spans
/// exactly from its anchor to its anchor plus its size on every axis.
pub proof fn lemma_corner_weights_span()
    ensures
        forall|c: Corner3| {
            let w = #[trigger] DotAlign::Corner(c).spec_weights();
            &&& (w.x == 0 || w.x == 2)
            &&& (w.y == 0 || w.y == 2)
            &&& (w.z == 0 || w.z == 2)
        },
        DotAlign::Corner(Corner3::P000).spec_weights() == (Weights { x: 0, y: 0, z: 0 }),
        DotAlign::Corner(Corner3::P111).spec_weights() == (Weights { x: 2, y: 2, z: 2 }),
{
}

impl From<Corner3> for DotAlign {
    fn from(corner: Corner3) -> (r: DotAlign) {
        DotAlign::Corner(corner)
    }
}

impl vstd::std_specs::convert::FromSpecImpl<Corner3> for DotAlign {
    open spec fn obeys_from_spec() -> bool {
        true
    }

    open spec fn from_spec(v: Corner3) -> DotAlign {
        DotAlign::Corner(v)
    }
}

impl RectAlign {
    /// The midpoint of two corner alignments; anything else is refused.
    pub open spec fn spec_midpoint(a: RectAlign, b: RectAlign) -> Result<RectAlign, ScadDotsError> {
        match (a, b) {
            (
                RectAlign::Corner { rect: rect_a, dot: dot_a },
                RectAlign::Corner { rect: rect_b, dot: dot_b },
            ) => Ok(RectAlign::Midpoint { rect_a, dot_a, rect_b, dot_b }),
            _ => Err(ScadDotsError::Midpoint),
        }
    }

    /// The outer corner of the Rect at `corner`: that corner of the Dot that
    /// stands at the Rect's corner below it.
    pub open spec fn spec_outside(corner: Corner3) -> RectAlign {
        RectAlign::Corner { rect: corner.spec_to_c2(), dot: corner }
    }

    /// The inner corner of the Rect at `corner`: the corner of the same Dot
    /// mirrored in X and Y, so that it faces the inside of the border.
    pub open spec fn spec_inside(corner: Corner3) -> RectAlign {
        RectAlign::Corner {
            rect: corner.spec_to_c2(),
            dot: corner.spec_invert(Axis::X).spec_invert(Axis::Y),
        }
    }

    pub open spec fn spec_outside_midpoint(a: Corner3, b: Corner3) -> RectAlign {
        RectAlign::Midpoint {
            rect_a: a.spec_to_c2(),
            dot_a: a,
            rect_b: b.spec_to_c2(),
            dot_b: b,
        }
    }

    /// Align to the Rect's origin, the outside `P000` corner.
    pub fn origin() -> (r: RectAlign)
        ensures
            r == RectAlign::spec_outside(Corner3::P000),
    {
        RectAlign::outside(Corner3::P000)
    }

    /// Align to the midpoint of two corner alignments. Fails with a Midpoint
    /// error when either of them is itself a midpoint.
    pub fn midpoint(a: RectAlign, b: RectAlign) -> (r: Result<RectAlign, ScadDotsError>)
        ensures
            r == RectAlign::spec_midpoint(a, b),
    {
        match (a, b) {
            (
                RectAlign::Corner { rect: rect_a, dot: dot_a },
                RectAlign::Corner { rect: rect_b, dot: dot_b },
            ) => Ok(RectAlign::Midpoint { rect_a, dot_a, rect_b, dot_b }),
            _ => Err(ScadDotsError::Midpoint),
        }
    }

    /// Align to the midpoint between the outer corners `a` and `b`.
    pub fn outside_midpoint(a: Corner3, b: Corner3) -> (r: RectAlign)
        ensures
            r == RectAlign::spec_outside_midpoint(a, b),
    {
        RectAlign::Midpoint {
            rect_a: Corner2::from(a),
            dot_a: a,
            rect_b: Corner2::from(b),
            dot_b: b,
        }
    }

    /// Align to the midpoint between the inner corners `a` and `b`.
    pub fn inside_midpoint(a: Corner3, b: Corner3) -> (r: RectAlign)
        ensures
            RectAlign::spec_midpoint(RectAlign::spec_inside(a), RectAlign::spec_inside(b)) == Ok::<
                RectAlign,
                ScadDotsError,
            >(r),
    {
        RectAlign::Midpoint {
            rect_a: Corner2::from(a),
            dot_a: a.copy_invert(Axis::X).copy_invert(Axis::Y),
            rect_b: Corner2::from(b),
            dot_b: b.copy_invert(Axis::X).copy_invert(Axis::Y),
        }
    }

    /// Align to the given outer corner.
    pub fn outside(corner: Corner3) -> (r: RectAlign)
        ensures
            r == RectAlign::spec_outside(corner),
    {
        RectAlign::Corner { dot: corner, rect: Corner2::from(corner) }
    }

    /// Align to the given inner corner. Picture a hollow rectangle made of
    /// four cube Dots linked into a thick border: the empty space inside the
    /// border is a box, whose eight corners are the inner corners.
    pub fn inside(corner: Corner3) -> (r: RectAlign)
        ensures
            r == RectAlign::spec_inside(corner),
    {
        RectAlign::Corner {
            dot: corner.copy_invert(Axis::X).copy_invert(Axis::Y),
            rect: Corner2::from(corner),
        }
    }

    /// Align to the center of mass.
    pub fn centroid() -> (r: RectAlign)
        ensures
            r == RectAlign::spec_outside_midpoint(Corner3::P000, Corner3::P111),
    {
        RectAlign::outside_midpoint(Corner3::P000, Corner3::P111)
    }

    /// Align to the center of the given face.
    pub fn center_face(face: CubeFace) -> (r: RectAlign)
        ensures
            r == RectAlign::spec_outside_midpoint(face.spec_corners().0, face.spec_corners().1),
    {
        let (a, b) = face.corners();
        RectAlign::outside_midpoint(a, b)
    }

    /// All corner alignments: for each Dot corner in the order of
    /// `Corner3::all`, each Rect corner in clockwise order.
    pub fn all_corners() -> (r: Vec<RectAlign>)
        ensures
            r@.len() == 32,
            forall|i: int, j: int|
                0 <= i < 8 && 0 <= j < 4 ==> #[trigger] r@[4 * i + j] == (RectAlign::Corner {
                    rect: clockwise_corners()[j],
                    dot: all_corner3()[i],
                }),
    {
        let dots = Corner3::all();
        let rects = Corner2::all_clockwise();
        let mut v: Vec<RectAlign> = Vec::new();
        let mut i: usize = 0;
        while i < 8
            invariant
                0 <= i <= 8,
                dots@ == all_corner3(),
                rects@ == clockwise_corners(),
                v@.len() == 4 * i,
                forall|a: int, b: int|
                    0 <= a < i && 0 <= b < 4 ==> #[trigger] v@[4 * a + b] == (RectAlign::Corner {
                        rect: clockwise_corners()[b],
                        dot: all_corner3()[a],
                    }),
            decreases 8 - i,
        {
            let mut j: usize = 0;
            while j < 4
                invariant
                    0 <= i < 8,
                    0 <= j <= 4,
                    dots@ == all_corner3(),
                    rects@ == clockwise_corners(),
                    v@.len() == 4 * i + j,
                    forall|a: int, b: int|
                        0 <= a < i && 0 <= b < 4 ==> #[trigger] v@[4 * a + b] == (RectAlign::Corner {
                            rect: clockwise_corners()[b],
                            dot: all_corner3()[a],
                        }),
                    forall|b: int|
                        0 <= b < j ==> #[trigger] v@[4 * i + b] == (RectAlign::Corner {
                            rect: clockwise_corners()[b],
                            dot: all_corner3()[i as int],
                        }),
                decreases 4 - j,
            {
                v.push(RectAlign::Corner { dot: dots[i], rect: rects[j] });
                j = j + 1;
            }
            i = i + 1;
        }
        v
    }
}

impl CuboidAlign {
    /// The midpoint of two corner alignments; anything else is refused.
    pub open spec fn spec_midpoint(a: CuboidAlign, b: CuboidAlign) -> Result<
        CuboidAlign,
        ScadDotsError,
    > {
        match (a, b) {
            (
                CuboidAlign::Corner { cuboid: cuboid_a, dot: dot_a },
                CuboidAlign::Corner { cuboid: cuboid_b, dot: dot_b },
            ) => Ok(CuboidAlign::Midpoint { cuboid_a, dot_a, cuboid_b, dot_b }),
            _ => Err(ScadDotsError::Midpoint),
        }
    }

    /// The outer corner of the Cuboid at `corner`: that corner of the Dot
    /// that stands there.
    pub open spec fn spec_outside(corner: Corner3) -> CuboidAlign {
        CuboidAlign::Corner { cuboid: corner, dot: corner }
    }

    /// The inner corner of the Cuboid at `corner`: the opposite corner of
    /// the Dot that stands there.
    pub open spec fn spec_inside(corner: Corner3) -> CuboidAlign {
        CuboidAlign::Corner {
            cuboid: corner,
            dot: corner.spec_invert(Axis::X).spec_invert(Axis::Y).spec_invert(Axis::Z),
        }
    }

    /// Align to the Cuboid's origin, the outside `P000` corner.
    pub fn origin() -> (r: CuboidAlign)
        ensures
            r == CuboidAlign::spec_outside(Corner3::P000),
    {
        CuboidAlign::outside(Corner3::P000)
    }

    /// Align to the given outer corner.
    pub fn outside(corner: Corner3) -> (r: CuboidAlign)
        ensures
            r == CuboidAlign::spec_outside(corner),
    {
        CuboidAlign::Corner { cuboid: corner, dot: corner }
    }

    /// Align to the given inner corner: the corner of the hollow space that
    /// the eight Dots enclose.
    pub fn inside(corner: Corner3) -> (r: CuboidAlign)
        ensures
            r == CuboidAlign::spec_inside(corner),
    {
        CuboidAlign::Corner { cuboid: corner, dot: corner.copy_invert_all_axes() }
    }

    /// Align to the center of the given outer face.
    pub fn center_face(face: CubeFace) -> (r: CuboidAlign)
        ensures
            Ok::<CuboidAlign, ScadDotsError>(r) == CuboidAlign::spec_midpoint(
                CuboidAlign::spec_outside(face.spec_corners().0),
                CuboidAlign::spec_outside(face.spec_corners().1),
            ),
    {
        let (a, b) = face.corners();
        CuboidAlign::outside_midpoint(a, b)
    }

    /// Align to the center of the given face of the inner hollow space.
    pub fn center_inside_face(face: CubeFace) -> (r: CuboidAlign)
        ensures
            Ok::<CuboidAlign, ScadDotsError>(r) == CuboidAlign::spec_midpoint(
                CuboidAlign::spec_inside(face.spec_corners().0),
                CuboidAlign::spec_inside(face.spec_corners().1),
            ),
    {
        let (a, b) = face.corners();
        CuboidAlign::inside_midpoint(a, b)
    }

    /// Align to the center of mass.
    pub fn centroid() -> (r: CuboidAlign)
        ensures
            Ok::<CuboidAlign, ScadDotsError>(r) == CuboidAlign::spec_midpoint(
                CuboidAlign::spec_outside(Corner3::P000),
                CuboidAlign::spec_outside(Corner3::P111),
            ),
    {
        CuboidAlign::outside_midpoint(Corner3::P000, Corner3::P111)
    }

    /// Align to the midpoint between the outer corners `a` and `b`.
    pub fn outside_midpoint(a: Corner3, b: Corner3) -> (r: CuboidAlign)
        ensures
            Ok::<CuboidAlign, ScadDotsError>(r) == CuboidAlign::spec_midpoint(
                CuboidAlign::spec_outside(a),
                CuboidAlign::spec_outside(b),
            ),
    {
        CuboidAlign::Midpoint { cuboid_a: a, dot_a: a, cuboid_b: b, dot_b: b }
    }

    /// Align to the midpoint between the inner corners `a` and `b`.
    pub fn inside_midpoint(a: Corner3, b: Corner3) -> (r: CuboidAlign)
        ensures
            Ok::<CuboidAlign, ScadDotsError>(r) == CuboidAlign::spec_midpoint(
                CuboidAlign::spec_inside(a),
                CuboidAlign::spec_inside(b),
            ),
    {
        CuboidAlign::Midpoint {
            cuboid_a: a,
            dot_a: a.copy_invert_all_axes(),
            cuboid_b: b,
            dot_b: b.copy_invert_all_axes(),
        }
    }

    /// Align to the midpoint of two corner alignments. Fails with a Midpoint
    /// error when either of them is itself a midpoint.
    pub fn midpoint(a: CuboidAlign, b: CuboidAlign) -> (r: Result<CuboidAlign, ScadDotsError>)
        ensures
            r == CuboidAlign::spec_midpoint(a, b),
    {
        match (a, b) {
            (
                CuboidAlign::Corner { cuboid: cuboid_a, dot: dot_a },
                CuboidAlign::Corner { cuboid: cuboid_b, dot: dot_b },
            ) => Ok(CuboidAlign::Midpoint { cuboid_a, dot_a, cuboid_b, dot_b }),
            _ => Err(ScadDotsError::Midpoint),
        }
    }

    /// All corner alignments: for each Dot corner, each Cuboid corner, both
    /// in the order of `Corner3::all`.
    pub fn all_corners() -> (r: Vec<CuboidAlign>)
        ensures
            r@.len() == 64,
            forall|i: int, j: int|
                0 <= i < 8 && 0 <= j < 8 ==> #[trigger] r@[8 * i + j] == (CuboidAlign::Corner {
                    cuboid: all_corner3()[j],
                    dot: all_corner3()[i],
                }),
    {
        let all = Corner3::all();
        let mut v: Vec<CuboidAlign> = Vec::new();
        let mut i: usize = 0;
        while i < 8
            invariant
                0 <= i <= 8,
                all@ == all_corner3(),
                v@.len() == 8 * i,
                forall|a: int, b: int|
                    0 <= a < i && 0 <= b < 8 ==> #[trigger] v@[8 * a + b] == (CuboidAlign::Corner {
                        cuboid: all_corner3()[b],
                        dot: all_corner3()[a],
                    }),
            decreases 8 - i,
        {
            let mut j: usize = 0;
            while j < 8
                invariant
                    0 <= i < 8,
                    0 <= j <= 8,
                    all@ == all_corner3(),
                    v@.len() == 8 * i + j,
                    forall|a: int, b: int|
                        0 <= a < i && 0 <= b < 8 ==> #[trigger] v@[8 * a + b] == (
                        CuboidAlign::Corner { cuboid: all_corner3()[b], dot: all_corner3()[a] }),
                    forall|b: int|
                        0 <= b < j ==> #[trigger] v@[8 * i + b] == (CuboidAlign::Corner {
                            cuboid: all_corner3()[b],
                            dot: all_corner3()[i as int],
                        }),
                decreases 8 - j,
            {
                v.push(CuboidAlign::Corner { cuboid: all[j], dot: all[i] });
                j = j + 1;
            }
            i = i + 1;
        }
        v
    }
}

impl CuboidAlign {
    /// The same point, named on the Rect that holds it: the Cuboid corner's
    /// Z is dropped, since the Rect is chosen by it.
    pub open spec fn spec_to_rect(self) -> RectAlign {
        match self {
            CuboidAlign::Corner { cuboid, dot } => RectAlign::Corner {
                rect: cuboid.spec_to_c2(),
                dot,
            },
            CuboidAlign::Midpoint { cuboid_a, dot_a, cuboid_b, dot_b } => RectAlign::Midpoint {
                rect_a: cuboid_a.spec_to_c2(),
                dot_a,
                rect_b: cuboid_b.spec_to_c2(),
                dot_b,
            },
        }
    }
}

impl From<CuboidAlign> for RectAlign {
    fn from(c: CuboidAlign) -> (r: RectAlign) {
        match c {
            CuboidAlign::Corner { cuboid, dot } => RectAlign::Corner {
                rect: Corner2::from(cuboid),
                dot,
            },
            CuboidAlign::Midpoint { cuboid_a, dot_a, cuboid_b, dot_b } => RectAlign::Midpoint {
                rect_a: Corner2::from(cuboid_a),
                dot_a,
                rect_b: Corner2::from(cuboid_b),
                dot_b,
            },
        }
    }
}

impl vstd::std_specs::convert::FromSpecImpl<CuboidAlign> for RectAlign {
    open spec fn obeys_from_spec() -> bool {
        true
    }

    open spec fn from_spec(v: CuboidAlign) -> RectAlign {
        v.spec_to_rect()
    }
}

impl PostAlign {
    /// The midpoint of two corner alignments; anything else is refused.
    pub open spec fn spec_midpoint(a: PostAlign, b: PostAlign) -> Result<PostAlign, ScadDotsError> {
        match (a, b) {
            (
                PostAlign::Corner { post: post_a, dot: dot_a },
                PostAlign::Corner { post: post_b, dot: dot_b },
            ) => Ok(PostAlign::Midpoint { post_a, dot_a, post_b, dot_b }),
            _ => Err(ScadDotsError::Midpoint),
        }
    }

    /// The outer corner of the Post at `corner`: its Z picks the top or the
    /// bottom Dot, and the whole corner picks that Dot's corner.
    pub open spec fn spec_outside(corner: Corner3) -> PostAlign {
        PostAlign::Corner { post: corner.spec_to_c1(), dot: corner }
    }

    /// Align to the Post's origin, the outside `P000` corner.
    pub fn origin() -> (r: PostAlign)
        ensures
            r == PostAlign::spec_outside(Corner3::P000),
    {
        PostAlign::outside(Corner3::P000)
    }

    /// Align to the given outer corner.
    pub fn outside(corner: Corner3) -> (r: PostAlign)
        ensures
            r == PostAlign::spec_outside(corner),
    {
        PostAlign::Corner { dot: corner, post: Corner1::from(corner) }
    }

    /// Align to the midpoint between the outer corners `a` and `b`.
    pub fn outside_midpoint(a: Corner3, b: Corner3) -> (r: PostAlign)
        ensures
            Ok::<PostAlign, ScadDotsError>(r) == PostAlign::spec_midpoint(
                PostAlign::spec_outside(a),
                PostAlign::spec_outside(b),
            ),
    {
        PostAlign::Midpoint {
            post_a: Corner1::from(a),
            dot_a: a,
            post_b: Corner1::from(b),
            dot_b: b,
        }
    }

    /// Align to the midpoint of two corner alignments. Fails with a Midpoint
    /// error when either of them is itself a midpoint.
    pub fn midpoint(a: PostAlign, b: PostAlign) -> (r: Result<PostAlign, ScadDotsError>)
        ensures
            r == PostAlign::spec_midpoint(a, b),
    {
        match (a, b) {
            (
                PostAlign::Corner { post: post_a, dot: dot_a },
                PostAlign::Corner { post: post_b, dot: dot_b },
            ) => Ok(PostAlign::Midpoint { post_a, dot_a, post_b, dot_b }),
            _ => Err(ScadDotsError::Midpoint),
        }
    }
}

/// An offset into a composite shape, in halves: `outer` counts halves of the
/// composite's outer dimensions (the span between its corner Dots), `dot`
/// halves of a corner Dot's own dimensions.
#[derive(Debug, Clone, Copy, PartialEq, Eq, Structural)]
pub struct LevelWeights {
    pub outer: Weights,
    pub dot: Weights,
}

impl LevelWeights {
    pub open spec fn spec_mean(a: LevelWeights, b: LevelWeights) -> LevelWeights {
        LevelWeights {
            outer: Weights::spec_mean(a.outer, b.outer),
            dot: Weights::spec_mean(a.dot, b.dot),
        }
    }

    pub open spec fn wf(self) -> bool {
        self.outer.wf() && self.dot.wf()
    }

    fn mean(a: LevelWeights, b: LevelWeights) -> (r: LevelWeights)
        requires
            a.wf(),
            b.wf(),
        ensures
            r == LevelWeights::spec_mean(a, b),
            r.wf(),
    {
        LevelWeights { outer: Weights::mean(a.outer, b.outer), dot: Weights::mean(a.dot, b.dot) }
    }
}

impl RectAlign {
    pub open spec fn spec_weights(self) -> LevelWeights {
        match self {
            RectAlign::Corner { rect, dot } => LevelWeights {
                outer: Weights::spec_of_corner2(rect),
                dot: Weights::spec_of_corner3(dot),
            },
            RectAlign::Midpoint { rect_a, dot_a, rect_b, dot_b } => LevelWeights::spec_mean(
                LevelWeights {
                    outer: Weights::spec_of_corner2(rect_a),
                    dot: Weights::spec_of_corner3(dot_a),
                },
                LevelWeights {
                    outer: Weights::spec_of_corner2(rect_b),
                    dot: Weights::spec_of_corner3(dot_b),
                },
            ),
        }
    }

    /// The offset from the Rect's anchor to this point: the chosen Dot's
    /// corner within the Rect, plus the chosen corner within that Dot, or
    /// the mean of two such offsets.
    pub fn weights(self) -> (r: LevelWeights)
        ensures
            r == self.spec_weights(),
            r.wf(),
    {
        match self {
            RectAlign::Corner { rect, dot } => LevelWeights {
                outer: Weights::of_corner2(rect),
                dot: Weights::of_corner3(dot),
            },
            RectAlign::Midpoint { rect_a, dot_a, rect_b, dot_b } => LevelWeights::mean(
                LevelWeights { outer: Weights::of_corner2(rect_a), dot: Weights::of_corner3(dot_a) },
                LevelWeights { outer: Weights::of_corner2(rect_b), dot: Weights::of_corner3(dot_b) },
            ),
        }
    }
}

impl CuboidAlign {
    pub open spec fn spec_weights(self) -> LevelWeights {
        match self {
            CuboidAlign::Corner { cuboid, dot } => LevelWeights {
                outer: Weights::spec_of_corner3(cuboid),
                dot: Weights::spec_of_corner3(dot),
            },
            CuboidAlign::Midpoint { cuboid_a, dot_a, cuboid_b, dot_b } => LevelWeights::spec_mean(
                LevelWeights {
                    outer: Weights::spec_of_corner3(cuboid_a),
                    dot: Weights::spec_of_corner3(dot_a),
                },
                LevelWeights {
                    outer: Weights::spec_of_corner3(cuboid_b),
                    dot: Weights::spec_of_corner3(dot_b),
                },
            ),
        }
    }

    /// The offset from the Cuboid's anchor to this point: the chosen Dot's
    /// corner within the Cuboid, plus the chosen corner within that Dot, or
    /// the mean of two such offsets.
    pub fn weights(self) -> (r: LevelWeights)
        ensures
            r == self.spec_weights(),
            r.wf(),
    {
        match self {
            CuboidAlign::Corner { cuboid, dot } => LevelWeights {
                outer: Weights::of_corner3(cuboid),
                dot: Weights::of_corner3(dot),
            },
            CuboidAlign::Midpoint { cuboid_a, dot_a, cuboid_b, dot_b } => LevelWeights::mean(
                LevelWeights {
                    outer: Weights::of_corner3(cuboid_a),
                    dot: Weights::of_corner3(dot_a),
                },
                LevelWeights {
                    outer: Weights::of_corner3(cuboid_b),
                    dot: Weights::of_corner3(dot_b),
                },
            ),
        }
    }
}

impl PostAlign {
    pub open spec fn spec_weights(self) -> LevelWeights {
        match self {
            PostAlign::Corner { post, dot } => LevelWeights {
                outer: Weights::spec_of_corner1(post),
                dot: Weights::spec_of_corner3(dot),
            },
            PostAlign::Midpoint { post_a, dot_a, post_b, dot_b } => LevelWeights::spec_mean(
                LevelWeights {
                    outer: Weights::spec_of_corner1(post_a),
                    dot: Weights::spec_of_corner3(dot_a),
                },
                LevelWeights {
                    outer: Weights::spec_of_corner1(post_b),
                    dot: Weights::spec_of_corner3(dot_b),
                },
            ),
        }
    }

    /// The offset from the Post's anchor to this point: the bottom or top
    /// Dot along the Post's length, plus the chosen corner within that Dot,
    /// or the mean of two such offsets.
    pub fn weights(self) -> (r: LevelWeights)
        ensures
            r == self.spec_weights(),
            r.wf(),
    {
        match self {
            PostAlign::Corner { post, dot } => LevelWeights {
                outer: Weights::of_corner1(post),
                dot: Weights::of_corner3(dot),
            },
            PostAlign::Midpoint { post_a, dot_a, post_b, dot_b } => LevelWeights::mean(
                LevelWeights { outer: Weights::of_corner1(post_a), dot: Weights::of_corner3(dot_a) },
                LevelWeights { outer: Weights::of_corner1(post_b), dot: Weights::of_corner3(dot_b) },
            ),
        }
    }
}

impl CylinderAlign {
    /// The offset from the center of the bottom circle to this point, in
    /// halves of the Cylinder's height along its axis.
    pub fn height_halves(self) -> (r: u8)
        ensures
            r == (match self {
                CylinderAlign::EndCenter(Corner1::P0) => 0u8,
                CylinderAlign::EndCenter(Corner1::P1) => 2u8,
                CylinderAlign::Centroid => 1u8,
            }),
    {
        match self {
            CylinderAlign::EndCenter(Corner1::P0) => 0,
            CylinderAlign::EndCenter(Corner1::P1) => 2,
            CylinderAlign::Centroid => 1,
        }
    }
}

} // verus!
