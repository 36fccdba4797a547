use vstd::prelude::*;

use crate::error::ScadDotsError;

verus! {

/// One of the three coordinate axes.
#[derive(Debug, Clone, Copy, PartialEq, Eq, Structural, Hash, PartialOrd, Ord)]
pub enum Axis {
    X,
    Y,
    Z,
}

/// The two ends of a unit segment along the Z axis.
#[derive(Debug, Clone, Copy, PartialEq, Eq, Structural)]
pub enum Corner1 {
    P0,
    P1,
}

/// The four corners of a unit square, listed in clockwise order.
#[derive(Debug, Clone, Copy, PartialEq, Eq, Structural)]
pub enum Corner2 {
    P00,
    P01,
    P11,
    P10,
}

/// The eight corners of a unit cube. The digits give the X, Y and Z
/// coordinates of the corner.
#[derive(Debug, Clone, Copy, PartialEq, Eq, Structural)]
pub enum Corner3 {
    P000,
    P010,
    P110,
    P100,
    P001,
    P011,
    P111,
    P101,
}

/// The four edges of a rectangle in the XY plane.
#[derive(Debug, Clone, Copy, PartialEq, Eq, Structural)]
pub enum RectEdge {
    X0,
    X1,
    Y0,
    Y1,
}

/// The six faces of a cube.
#[derive(Debug, Clone, Copy, PartialEq, Eq, Structural)]
pub enum CubeFace {
    X0,
    X1,
    Y0,
    Y1,
    Z0,
    Z1,
}

/// A named display colour.
#[derive(Debug, Clone, Copy, PartialEq, Eq, Structural)]
pub enum ColorSpec {
    Red,
    Green,
}

/// How many halves of a shape's dimension an offset spans along X, Y and
/// Z. A corner spans none or all of each dimension (0 or 2 halves); the
/// midpoint of two corners spans the mean.
#[derive(Debug, Clone, Copy, PartialEq, Eq, Structural)]
pub struct Weights {
    pub x: u8,
    pub y: u8,
    pub z: u8,
}

impl Weights {
    pub open spec fn halves(high: bool) -> u8 {
        if high {
            2
        } else {
            0
        }
    }

    /// The offset from the origin corner of a unit cube to `corner`.
    pub open spec fn spec_of_corner3(corner: Corner3) -> Weights {
        Weights {
            x: Weights::halves(corner.spec_bools().0),
            y: Weights::halves(corner.spec_bools().1),
            z: Weights::halves(corner.spec_bools().2),
        }
    }

    /// The offset from the origin corner of a unit square to `corner`.
    pub open spec fn spec_of_corner2(corner: Corner2) -> Weights {
        Weights {
            x: Weights::halves(corner.spec_bools().0),
            y: Weights::halves(corner.spec_bools().1),
            z: 0,
        }
    }

    /// The offset from the low end of a unit segment along Z to `corner`.
    pub open spec fn spec_of_corner1(corner: Corner1) -> Weights {
        Weights { x: 0, y: 0, z: Weights::halves(corner.spec_is_high()) }
    }

    /// The mean of two offsets, on each axis.
    pub open spec fn spec_mean(a: Weights, b: Weights) -> Weights {
        Weights {
            x: ((a.x + b.x) / 2) as u8,
            y: ((a.y + b.y) / 2) as u8,
            z: ((a.z + b.z) / 2) as u8,
        }
    }

    /// Every weight is a whole number of halves between 0 and 2.
    pub open spec fn wf(self) -> bool {
        self.x <= 2 && self.y <= 2 && self.z <= 2
    }

    fn half_steps(high: bool) -> (r: u8)
        ensures
            r == Weights::halves(high),
    {
        if high {
            2
        } else {
            0
        }
    }

    pub fn of_corner3(corner: Corner3) -> (r: Weights)
        ensures
            r == Weights::spec_of_corner3(corner),
    {
        let (x, y, z) = corner.to_bools();
        Weights { x: Weights::half_steps(x), y: Weights::half_steps(y), z: Weights::half_steps(z) }
    }

    pub fn of_corner2(corner: Corner2) -> (r: Weights)
        ensures
            r == Weights::spec_of_corner2(corner),
    {
        let (x, y) = corner.to_bools();
        Weights { x: Weights::half_steps(x), y: Weights::half_steps(y), z: 0 }
    }

    pub fn of_corner1(corner: Corner1) -> (r: Weights)
        ensures
            r == Weights::spec_of_corner1(corner),
    {
        Weights { x: 0, y: 0, z: Weights::half_steps(corner.is_high()) }
    }

    /// The mean of two offsets, on each axis.
    pub fn mean(a: Weights, b: Weights) -> (r: Weights)
        requires
            a.wf(),
            b.wf(),
        ensures
            r == Weights::spec_mean(a, b),
            r.wf(),
    {
        Weights { x: (a.x + b.x) / 2, y: (a.y + b.y) / 2, z: (a.z + b.z) / 2 }
    }
}

impl Axis {
    /// The position of this axis in a coordinate triple.
    pub open spec fn spec_index(self) -> nat {
        match self {
            Axis::X => 0,
            Axis::Y => 1,
            Axis::Z => 2,
        }
    }

    pub fn index(self) -> (r: usize)
        ensures
            r == self.spec_index(),
    {
        match self {
            Axis::X => 0,
            Axis::Y => 1,
            Axis::Z => 2,
        }
    }
}

impl RectEdge {
    pub open spec fn spec_is_high(self) -> bool {
        self == RectEdge::X1 || self == RectEdge::Y1
    }

    pub open spec fn spec_axis(self) -> Axis {
        if self == RectEdge::X0 || self == RectEdge::X1 {
            Axis::X
        } else {
            Axis::Y
        }
    }

    /// Whether the edge lies on the high side of its axis.
    pub fn is_high(self) -> (r: bool)
        ensures
            r == self.spec_is_high(),
    {
        match self {
            RectEdge::X0 | RectEdge::Y0 => false,
            RectEdge::X1 | RectEdge::Y1 => true,
        }
    }

    /// The axis across which the edge is placed.
    pub fn axis(self) -> (r: Axis)
        ensures
            r == self.spec_axis(),
    {
        match self {
            RectEdge::X0 | RectEdge::X1 => Axis::X,
            RectEdge::Y0 | RectEdge::Y1 => Axis::Y,
        }
    }

    pub fn is_x(self) -> (r: bool)
        ensures
            r == (self.spec_axis() == Axis::X),
    {
        match self {
            RectEdge::X0 | RectEdge::X1 => true,
            RectEdge::Y0 | RectEdge::Y1 => false,
        }
    }
}

impl Corner1 {
    pub open spec fn spec_is_high(self) -> bool {
        self == Corner1::P1
    }

    pub open spec fn from_high(high: bool) -> Corner1 {
        if high {
            Corner1::P1
        } else {
            Corner1::P0
        }
    }

    pub fn is_high(self) -> (r: bool)
        ensures
            r == self.spec_is_high(),
    {
        match self {
            Corner1::P0 => false,
            Corner1::P1 => true,
        }
    }
}

/// The corners of a unit square in clockwise order, starting at the origin.
pub open spec fn clockwise_corners() -> Seq<Corner2> {
    seq![Corner2::P00, Corner2::P01, Corner2::P11, Corner2::P10]
}

impl Corner2 {
    /// Whether the corner is high on the X axis and on the Y axis.
    pub open spec fn spec_bools(self) -> (bool, bool) {
        match self {
            Corner2::P00 => (false, false),
            Corner2::P01 => (false, true),
            Corner2::P11 => (true, true),
            Corner2::P10 => (true, false),
        }
    }

    pub open spec fn from_spec_bools(b: (bool, bool)) -> Corner2 {
        match b {
            (false, false) => Corner2::P00,
            (false, true) => Corner2::P01,
            (true, true) => Corner2::P11,
            (true, false) => Corner2::P10,
        }
    }

    /// Where the corner stands in the clockwise order.
    pub open spec fn clockwise_index(self) -> int {
        match self {
            Corner2::P00 => 0,
            Corner2::P01 => 1,
            Corner2::P11 => 2,
            Corner2::P10 => 3,
        }
    }

    /// All four corners in clockwise order, starting at the given corner.
    pub fn all_clockwise_from(corner: Corner2) -> (r: Vec<Corner2>)
        ensures
            r@.len() == 4,
            forall|i: int|
                0 <= i < 4 ==> #[trigger] r@[i] == clockwise_corners()[(i + corner.clockwise_index())
                    % 4],
    {
        let index: usize = match corner {
            Corner2::P00 => 0,
            Corner2::P01 => 1,
            Corner2::P11 => 2,
            Corner2::P10 => 3,
        };
        let all = Corner2::all_clockwise();
        let mut v: Vec<Corner2> = Vec::new();
        let mut i: usize = 0;
        while i < 4
            invariant
                0 <= i <= 4,
                index == corner.clockwise_index(),
                all@ == clockwise_corners(),
                v@.len() == i,
                forall|j: int|
                    0 <= j < i ==> #[trigger] v@[j] == clockwise_corners()[(j + index) % 4],
            decreases 4 - i,
        {
            v.push(all[(i + index) % 4]);
            i = i + 1;
        }
        v
    }

    /// All four corners in clockwise order, starting at the origin.
    pub fn all_clockwise() -> (r: Vec<Corner2>)
        ensures
            r@ == clockwise_corners(),
    {
        let r = vec![Corner2::P00, Corner2::P01, Corner2::P11, Corner2::P10];
        assert(r@ =~= clockwise_corners());
        r
    }

    /// Whether the corner is high on the given axis; a square corner has no Z
    /// coordinate.
    pub fn is_high(self, axis: Axis) -> (r: Result<bool, ScadDotsError>)
        ensures
            axis == Axis::X ==> r == Ok::<bool, ScadDotsError>(self.spec_bools().0),
            axis == Axis::Y ==> r == Ok::<bool, ScadDotsError>(self.spec_bools().1),
            axis == Axis::Z ==> r == Err::<bool, ScadDotsError>(ScadDotsError::Args),
    {
        let bools = self.to_bools();
        match axis {
            Axis::X => Ok(bools.0),
            Axis::Y => Ok(bools.1),
            Axis::Z => Err(ScadDotsError::Args),
        }
    }

    /// The cube corner above this square corner, on the given end of Z.
    pub fn to_c3(self, z: Corner1) -> (r: Corner3)
        ensures
            r.spec_bools() == (self.spec_bools().0, self.spec_bools().1, z.spec_is_high()),
    {
        Corner3::from(self).copy_to(Axis::Z, z.is_high())
    }

    pub fn to_bools(self) -> (r: (bool, bool))
        ensures
            r == self.spec_bools(),
    {
        match self {
            Corner2::P00 => (false, false),
            Corner2::P01 => (false, true),
            Corner2::P11 => (true, true),
            Corner2::P10 => (true, false),
        }
    }
}

impl Corner3 {
    /// Whether the corner is high on the X, Y and Z axes.
    pub open spec fn spec_bools(self) -> (bool, bool, bool) {
        match self {
            Corner3::P000 => (false, false, false),
            Corner3::P010 => (false, true, false),
            Corner3::P110 => (true, true, false),
            Corner3::P100 => (true, false, false),
            Corner3::P001 => (false, false, true),
            Corner3::P011 => (false, true, true),
            Corner3::P111 => (true, true, true),
            Corner3::P101 => (true, false, true),
        }
    }

    pub open spec fn from_spec_bools(b: (bool, bool, bool)) -> Corner3 {
        match b {
            (false, false, false) => Corner3::P000,
            (false, true, false) => Corner3::P010,
            (true, true, false) => Corner3::P110,
            (true, false, false) => Corner3::P100,
            (false, false, true) => Corner3::P001,
            (false, true, true) => Corner3::P011,
            (true, true, true) => Corner3::P111,
            (true, false, true) => Corner3::P101,
        }
    }

    /// Whether the corner is high on the given axis.
    pub open spec fn spec_is_high(self, axis: Axis) -> bool {
        match axis {
            Axis::X => self.spec_bools().0,
            Axis::Y => self.spec_bools().1,
            Axis::Z => self.spec_bools().2,
        }
    }

    /// The corner that differs from this one at most on `axis`, where it is
    /// high exactly when `high` is.
    pub open spec fn spec_copy_to(self, axis: Axis, high: bool) -> Corner3 {
        let b = self.spec_bools();
        match axis {
            Axis::X => Corner3::from_spec_bools((high, b.1, b.2)),
            Axis::Y => Corner3::from_spec_bools((b.0, high, b.2)),
            Axis::Z => Corner3::from_spec_bools((b.0, b.1, high)),
        }
    }

    /// The corner mirrored across the middle of `axis`.
    pub open spec fn spec_invert(self, axis: Axis) -> Corner3 {
        self.spec_copy_to(axis, !self.spec_is_high(axis))
    }

    pub fn is_high(self, axis: Axis) -> (r: bool)
        ensures
            r == self.spec_is_high(axis),
    {
        let bools = self.to_bools();
        match axis {
            Axis::X => bools.0,
            Axis::Y => bools.1,
            Axis::Z => bools.2,
        }
    }

    /// A copy of this corner, moved to the high or low side of `axis`.
    pub fn copy_to(self, axis: Axis, new_val: bool) -> (r: Corner3)
        ensures
            r == self.spec_copy_to(axis, new_val),
            r.spec_is_high(axis) == new_val,
            forall|a: Axis| a != axis ==> #[trigger] r.spec_is_high(a) == self.spec_is_high(a),
    {
        let mut bools = self.to_bools();
        match axis {
            Axis::X => {
                bools.0 = new_val;
            },
            Axis::Y => {
                bools.1 = new_val;
            },
            Axis::Z => {
                bools.2 = new_val;
            },
        }
        Corner3::from_bools(bools)
    }

    /// The corner mirrored across the middle of `axis`.
    pub fn copy_invert(self, axis: Axis) -> (r: Corner3)
        ensures
            r == self.spec_invert(axis),
            r.spec_is_high(axis) == !self.spec_is_high(axis),
            forall|a: Axis| a != axis ==> #[trigger] r.spec_is_high(a) == self.spec_is_high(a),
    {
        let current = self.is_high(axis);
        self.copy_to(axis, !current)
    }

    /// The opposite corner of the cube.
    pub fn copy_invert_all_axes(self) -> (r: Corner3)
        ensures
            r == self.spec_invert(Axis::X).spec_invert(Axis::Y).spec_invert(Axis::Z),
            forall|a: Axis| #[trigger] r.spec_is_high(a) == !self.spec_is_high(a),
    {
        self.copy_invert(Axis::X).copy_invert(Axis::Y).copy_invert(Axis::Z)
    }

    /// All eight corners: the bottom square clockwise, then the top one.
    pub fn all() -> (r: Vec<Corner3>)
        ensures
            r@ == all_corner3(),
    {
        let r = vec![
            Corner3::P000,
            Corner3::P010,
            Corner3::P110,
            Corner3::P100,
            Corner3::P001,
            Corner3::P011,
            Corner3::P111,
            Corner3::P101,
        ];
        assert(r@ =~= all_corner3());
        r
    }

    pub fn to_bools(self) -> (r: (bool, bool, bool))
        ensures
            r == self.spec_bools(),
    {
        match self {
            Corner3::P000 => (false, false, false),
            Corner3::P010 => (false, true, false),
            Corner3::P110 => (true, true, false),
            Corner3::P100 => (true, false, false),
            Corner3::P001 => (false, false, true),
            Corner3::P011 => (false, true, true),
            Corner3::P111 => (true, true, true),
            Corner3::P101 => (true, false, true),
        }
    }

    pub fn from_bools(bools: (bool, bool, bool)) -> (r: Corner3)
        ensures
            r == Corner3::from_spec_bools(bools),
            r.spec_bools() == bools,
    {
        match bools {
            (false, false, false) => Corner3::P000,
            (false, true, false) => Corner3::P010,
            (true, true, false) => Corner3::P110,
            (true, false, false) => Corner3::P100,
            (false, false, true) => Corner3::P001,
            (false, true, true) => Corner3::P011,
            (true, true, true) => Corner3::P111,
            (true, false, true) => Corner3::P101,
        }
    }
}

/// The eight cube corners in the order that `Corner3::all` gives them.
pub open spec fn all_corner3() -> Seq<Corner3> {
    seq![
        Corner3::P000,
        Corner3::P010,
        Corner3::P110,
        Corner3::P100,
        Corner3::P001,
        Corner3::P011,
        Corner3::P111,
        Corner3::P101,
    ]
}

impl Corner2 {
    /// The cube corner in the plane Z = 0 above this square corner.
    pub open spec fn spec_to_c3(self) -> Corner3 {
        Corner3::from_spec_bools((self.spec_bools().0, self.spec_bools().1, false))
    }
}

impl Corner3 {
    /// The square corner below this cube corner: Z is discarded.
    pub open spec fn spec_to_c2(self) -> Corner2 {
        Corner2::from_spec_bools((self.spec_bools().0, self.spec_bools().1))
    }

    /// The segment end of this cube corner: X and Y are discarded.
    pub open spec fn spec_to_c1(self) -> Corner1 {
        Corner1::from_high(self.spec_bools().2)
    }
}

impl Axis {
    /// The cube corner at the unit step along this axis.
    pub open spec fn spec_to_c3(self) -> Corner3 {
        match self {
            Axis::X => Corner3::P100,
            Axis::Y => Corner3::P010,
            Axis::Z => Corner3::P001,
        }
    }
}

impl From<Corner2> for Corner3 {
    /// Convert up to three dimensions, with Z low.
    fn from(corner2: Corner2) -> (r: Corner3) {
        match corner2 {
            Corner2::P00 => Corner3::P000,
            Corner2::P01 => Corner3::P010,
            Corner2::P11 => Corner3::P110,
            Corner2::P10 => Corner3::P100,
        }
    }
}

impl vstd::std_specs::convert::FromSpecImpl<Corner2> for Corner3 {
    open spec fn obeys_from_spec() -> bool {
        true
    }

    open spec fn from_spec(v: Corner2) -> Corner3 {
        v.spec_to_c3()
    }
}

impl From<Corner3> for Corner2 {
    /// Convert down to two dimensions, discarding Z.
    fn from(corner3: Corner3) -> (r: Corner2) {
        match corner3 {
            Corner3::P000 | Corner3::P001 => Corner2::P00,
            Corner3::P010 | Corner3::P011 => Corner2::P01,
            Corner3::P110 | Corner3::P111 => Corner2::P11,
            Corner3::P100 | Corner3::P101 => Corner2::P10,
        }
    }
}

impl vstd::std_specs::convert::FromSpecImpl<Corner3> for Corner2 {
    open spec fn obeys_from_spec() -> bool {
        true
    }

    open spec fn from_spec(v: Corner3) -> Corner2 {
        v.spec_to_c2()
    }
}

impl From<Corner3> for Corner1 {
    /// Convert down to one dimension, discarding X and Y.
    fn from(corner3: Corner3) -> (r: Corner1) {
        if corner3.is_high(Axis::Z) {
            Corner1::P1
        } else {
            Corner1::P0
        }
    }
}

impl vstd::std_specs::convert::FromSpecImpl<Corner3> for Corner1 {
    open spec fn obeys_from_spec() -> bool {
        true
    }

    open spec fn from_spec(v: Corner3) -> Corner1 {
        v.spec_to_c1()
    }
}

impl From<Axis> for Corner3 {
    fn from(axis: Axis) -> (r: Corner3) {
        match axis {
            Axis::X => Corner3::P100,
            Axis::Y => Corner3::P010,
            Axis::Z => Corner3::P001,
        }
    }
}

impl vstd::std_specs::convert::FromSpecImpl<Axis> for Corner3 {
    open spec fn obeys_from_spec() -> bool {
        true
    }

    open spec fn from_spec(v: Axis) -> Corner3 {
        v.spec_to_c3()
    }
}

impl CubeFace {
    pub open spec fn spec_is_high(self) -> bool {
        self == CubeFace::X1 || self == CubeFace::Y1 || self == CubeFace::Z1
    }

    pub open spec fn spec_axis(self) -> Axis {
        match self {
            CubeFace::X0 | CubeFace::X1 => Axis::X,
            CubeFace::Y0 | CubeFace::Y1 => Axis::Y,
            CubeFace::Z0 | CubeFace::Z1 => Axis::Z,
        }
    }

    /// The two diagonally opposite corners that span the face.
    pub open spec fn spec_corners(self) -> (Corner3, Corner3) {
        match self {
            CubeFace::X0 => (Corner3::P000, Corner3::P011),
            CubeFace::X1 => (Corner3::P100, Corner3::P111),
            CubeFace::Y0 => (Corner3::P000, Corner3::P101),
            CubeFace::Y1 => (Corner3::P010, Corner3::P111),
            CubeFace::Z0 => (Corner3::P000, Corner3::P110),
            CubeFace::Z1 => (Corner3::P001, Corner3::P111),
        }
    }

    /// Whether the face lies on the high side of its axis.
    pub fn is_high(self) -> (r: bool)
        ensures
            r == self.spec_is_high(),
    {
        match self {
            CubeFace::X0 | CubeFace::Y0 | CubeFace::Z0 => false,
            CubeFace::X1 | CubeFace::Y1 | CubeFace::Z1 => true,
        }
    }

    /// The axis that the face is perpendicular to.
    pub fn axis(self) -> (r: Axis)
        ensures
            r == self.spec_axis(),
    {
        match self {
            CubeFace::X0 | CubeFace::X1 => Axis::X,
            CubeFace::Y0 | CubeFace::Y1 => Axis::Y,
            CubeFace::Z0 | CubeFace::Z1 => Axis::Z,
        }
    }

    /// Two diagonally opposite corners of the face. Both lie on the face's
    /// side of its axis, and they differ on each of the other two axes.
    pub fn corners(self) -> (r: (Corner3, Corner3))
        ensures
            r == self.spec_corners(),
            r.0.spec_is_high(self.spec_axis()) == self.spec_is_high(),
            r.1.spec_is_high(self.spec_axis()) == self.spec_is_high(),
            forall|a: Axis|
                a != self.spec_axis() ==> #[trigger] r.0.spec_is_high(a) != r.1.spec_is_high(a),
    {
        match self {
            CubeFace::X0 => (Corner3::P000, Corner3::P011),
            CubeFace::X1 => (Corner3::P100, Corner3::P111),
            CubeFace::Y0 => (Corner3::P000, Corner3::P101),
            CubeFace::Y1 => (Corner3::P010, Corner3::P111),
            CubeFace::Z0 => (Corner3::P000, Corner3::P110),
            CubeFace::Z1 => (Corner3::P001, Corner3::P111),
        }
    }

    /// All six faces: the low ones, then the high ones.
    pub fn all() -> (r: Vec<CubeFace>)
        ensures
            r@ == seq![
                CubeFace::X0,
                CubeFace::Y0,
                CubeFace::Z0,
                CubeFace::X1,
                CubeFace::Y1,
                CubeFace::Z1,
            ],
    {
        let r = vec![
            CubeFace::X0,
            CubeFace::Y0,
            CubeFace::Z0,
            CubeFace::X1,
            CubeFace::Y1,
            CubeFace::Z1,
        ];
        assert(r@ =~= seq![
            CubeFace::X0,
            CubeFace::Y0,
            CubeFace::Z0,
            CubeFace::X1,
            CubeFace::Y1,
            CubeFace::Z1,
        ]);
        r
    }
}

impl ColorSpec {
    pub open spec fn spec_name(self) -> Seq<char> {
        match self {
            ColorSpec::Red => "red"@,
            ColorSpec::Green => "green"@,
        }
    }

    /// The colour's name as the renderer writes it.
    pub fn name(self) -> (r: String)
        ensures
            r@ == self.spec_name(),
    {
        match self {
            ColorSpec::Red => "red".to_owned(),
            ColorSpec::Green => "green".to_owned(),
        }
    }
}

} // verus!
