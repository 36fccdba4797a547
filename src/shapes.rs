use vstd::prelude::*;

use crate::axes::{Corner1, Corner2, Corner3, CubeFace};
use crate::error::ScadDotsError;

verus! {

/// The possible shapes of a Dot.
#[derive(Debug, Clone, Copy, PartialEq, Eq, Structural)]
pub enum DotShape {
    Cube,
    Sphere,
    Cylinder,
}

/// The shape of a Dot, under its shorter name.
pub type Shape = DotShape;

/// The shapes of the four Dots of a Rect.
#[derive(Debug, Clone, Copy, PartialEq, Eq, Structural)]
pub enum RectShapes {
    Cube,
    Sphere,
    Cylinder,
    Custom { p00: DotShape, p10: DotShape, p11: DotShape, p01: DotShape },
}

/// The shapes of the eight Dots of a Cuboid. `Round` gives spheres on top
/// and cylinders below.
#[derive(Debug, Clone, Copy, PartialEq, Eq, Structural)]
pub enum CuboidShapes {
    Cube,
    Sphere,
    Cylinder,
    Round,
    Custom {
        p000: DotShape,
        p100: DotShape,
        p110: DotShape,
        p010: DotShape,
        p001: DotShape,
        p101: DotShape,
        p111: DotShape,
        p011: DotShape,
    },
}

/// The shapes of the two Dots of a Post. `Round` gives a sphere on top and a
/// cylinder below.
#[derive(Debug, Clone, Copy, PartialEq, Eq, Structural)]
pub enum PostShapes {
    Cube,
    Sphere,
    Cylinder,
    Round,
    Custom { top: DotShape, bot: DotShape },
}

/// How the four Dots of a Rect are joined into a solid.
#[derive(Debug, Clone, Copy, PartialEq, Eq, Structural)]
pub enum RectLink {
    Solid,
    Frame,
    Dots,
    YPosts,
    Chamfer,
}

/// How the eight Dots of a Cuboid are joined into a solid.
#[derive(Debug, Clone, Copy, PartialEq, Eq, Structural)]
pub enum CuboidLink {
    Solid,
    Frame,
    Dots,
    Sides,
    Face(CubeFace),
    OpenBot,
    ZPost(Corner2),
    ChamferZ,
}

/// How the two Dots of a Post are joined into a solid.
#[derive(Debug, Clone, Copy, PartialEq, Eq, Structural)]
pub enum PostLink {
    Solid,
    Dots,
}

/// How the Posts of a taxicab path of Posts are joined.
#[derive(Debug, Clone, Copy, PartialEq, Eq, Structural)]
pub enum PostSnakeLink {
    Chain,
    Posts,
}

/// How the Dots of a taxicab path are joined.
#[derive(Debug, Clone, Copy, PartialEq, Eq, Structural)]
pub enum SnakeLink {
    Chain,
}

/// The three vertices of a Triangle.
#[derive(Debug, Clone, Copy, PartialEq, Eq, Structural)]
pub enum TriCorner {
    A,
    B,
    C,
}

impl DotShape {
    /// Only a cube-shaped Dot can be refined into a Cuboid of smaller Dots;
    /// any other shape is refused with an Args error.
    pub fn require_cube(self) -> (r: Result<(), ScadDotsError>)
        ensures
            self == DotShape::Cube ==> r is Ok,
            self != DotShape::Cube ==> r == Err::<(), ScadDotsError>(ScadDotsError::Args),
    {
        match self {
            DotShape::Cube => Ok(()),
            _ => Err(ScadDotsError::Args),
        }
    }
}

impl RectShapes {
    /// The shape of the Dot at the given Rect corner.
    pub open spec fn spec_get(self, corner: Corner2) -> DotShape {
        match self {
            RectShapes::Custom { p00, p10, p11, p01 } => match corner {
                Corner2::P00 => p00,
                Corner2::P01 => p01,
                Corner2::P10 => p10,
                Corner2::P11 => p11,
            },
            RectShapes::Cube => DotShape::Cube,
            RectShapes::Sphere => DotShape::Sphere,
            RectShapes::Cylinder => DotShape::Cylinder,
        }
    }

    /// The shape of the Dot at the given Rect corner.
    pub fn get(self, corner: Corner2) -> (r: DotShape)
        ensures
            r == self.spec_get(corner),
    {
        match self {
            RectShapes::Custom { p00, p10, p11, p01 } => match corner {
                Corner2::P00 => p00,
                Corner2::P01 => p01,
                Corner2::P10 => p10,
                Corner2::P11 => p11,
            },
            RectShapes::Cube => DotShape::Cube,
            RectShapes::Sphere => DotShape::Sphere,
            RectShapes::Cylinder => DotShape::Cylinder,
        }
    }
}

impl From<DotShape> for RectShapes {
    fn from(shape: DotShape) -> (r: RectShapes) {
        match shape {
            DotShape::Cube => RectShapes::Cube,
            DotShape::Cylinder => RectShapes::Cylinder,
            DotShape::Sphere => RectShapes::Sphere,
        }
    }
}

impl vstd::std_specs::convert::FromSpecImpl<DotShape> for RectShapes {
    open spec fn obeys_from_spec() -> bool {
        true
    }

    /// Every Dot of the Rect gets the one shape.
    open spec fn from_spec(v: DotShape) -> RectShapes {
        match v {
            DotShape::Cube => RectShapes::Cube,
            DotShape::Cylinder => RectShapes::Cylinder,
            DotShape::Sphere => RectShapes::Sphere,
        }
    }
}

impl CuboidShapes {
    /// The shape of the Dot at the given Cuboid corner.
    pub open spec fn spec_shape_at(self, corner: Corner3) -> DotShape {
        match self {
            CuboidShapes::Cube => DotShape::Cube,
            CuboidShapes::Sphere => DotShape::Sphere,
            CuboidShapes::Cylinder => DotShape::Cylinder,
            CuboidShapes::Round => if corner.spec_bools().2 {
                DotShape::Sphere
            } else {
                DotShape::Cylinder
            },
            CuboidShapes::Custom { p000, p100, p110, p010, p001, p101, p111, p011 } => match corner {
                Corner3::P000 => p000,
                Corner3::P100 => p100,
                Corner3::P110 => p110,
                Corner3::P010 => p010,
                Corner3::P001 => p001,
                Corner3::P101 => p101,
                Corner3::P111 => p111,
                Corner3::P011 => p011,
            },
        }
    }

    pub open spec fn spec_get(self, upper_or_lower: Corner1) -> RectShapes {
        match self {
            CuboidShapes::Round => if upper_or_lower == Corner1::P1 {
                RectShapes::Sphere
            } else {
                RectShapes::Cylinder
            },
            CuboidShapes::Custom { p000, p100, p110, p010, p001, p101, p111, p011 } => {
                if upper_or_lower == Corner1::P1 {
                    RectShapes::Custom { p00: p001, p01: p011, p10: p101, p11: p111 }
                } else {
                    RectShapes::Custom { p00: p000, p01: p010, p10: p100, p11: p110 }
                }
            },
            CuboidShapes::Cube => RectShapes::Cube,
            CuboidShapes::Sphere => RectShapes::Sphere,
            CuboidShapes::Cylinder => RectShapes::Cylinder,
        }
    }

    /// The shapes of the top (`P1`) or bottom (`P0`) Rect of the Cuboid:
    /// the Dot at each of its corners keeps the shape that the Cuboid gives
    /// it. A uniform choice stays uniform.
    pub fn get(self, upper_or_lower: Corner1) -> (r: RectShapes)
        ensures
            r == self.spec_get(upper_or_lower),
            forall|c: Corner2| #[trigger]
                r.spec_get(c) == self.spec_shape_at(
                    Corner3::from_spec_bools(
                        (c.spec_bools().0, c.spec_bools().1, upper_or_lower.spec_is_high()),
                    ),
                ),
    {
        match self {
            CuboidShapes::Round => match upper_or_lower {
                Corner1::P1 => RectShapes::Sphere,
                Corner1::P0 => RectShapes::Cylinder,
            },
            CuboidShapes::Custom { p000, p010, p100, p110, p001, p101, p011, p111 } => {
                match upper_or_lower {
                    Corner1::P1 => RectShapes::Custom { p00: p001, p01: p011, p10: p101, p11: p111 },
                    Corner1::P0 => RectShapes::Custom { p00: p000, p01: p010, p10: p100, p11: p110 },
                }
            },
            CuboidShapes::Cube => RectShapes::Cube,
            CuboidShapes::Sphere => RectShapes::Sphere,
            CuboidShapes::Cylinder => RectShapes::Cylinder,
        }
    }
}

impl From<DotShape> for CuboidShapes {
    fn from(shape: DotShape) -> (r: CuboidShapes) {
        match shape {
            DotShape::Cube => CuboidShapes::Cube,
            DotShape::Sphere => CuboidShapes::Sphere,
            DotShape::Cylinder => CuboidShapes::Cylinder,
        }
    }
}

impl vstd::std_specs::convert::FromSpecImpl<DotShape> for CuboidShapes {
    open spec fn obeys_from_spec() -> bool {
        true
    }

    /// Every Dot of the Cuboid gets the one shape.
    open spec fn from_spec(v: DotShape) -> CuboidShapes {
        match v {
            DotShape::Cube => CuboidShapes::Cube,
            DotShape::Cylinder => CuboidShapes::Cylinder,
            DotShape::Sphere => CuboidShapes::Sphere,
        }
    }
}

impl PostShapes {
    /// The shape of the bottom (`P0`) or top (`P1`) Dot.
    pub open spec fn spec_get(self, upper_or_lower: Corner1) -> DotShape {
        match self {
            PostShapes::Custom { bot, top } => match upper_or_lower {
                Corner1::P0 => bot,
                Corner1::P1 => top,
            },
            PostShapes::Round => match upper_or_lower {
                Corner1::P0 => DotShape::Cylinder,
                Corner1::P1 => DotShape::Sphere,
            },
            PostShapes::Cube => DotShape::Cube,
            PostShapes::Sphere => DotShape::Sphere,
            PostShapes::Cylinder => DotShape::Cylinder,
        }
    }

    /// The shape of the bottom (`P0`) or top (`P1`) Dot.
    pub fn get(self, upper_or_lower: Corner1) -> (r: DotShape)
        ensures
            r == self.spec_get(upper_or_lower),
    {
        match self {
            PostShapes::Custom { bot, top } => match upper_or_lower {
                Corner1::P0 => bot,
                Corner1::P1 => top,
            },
            PostShapes::Round => match upper_or_lower {
                Corner1::P0 => DotShape::Cylinder,
                Corner1::P1 => DotShape::Sphere,
            },
            PostShapes::Cube => DotShape::Cube,
            PostShapes::Sphere => DotShape::Sphere,
            PostShapes::Cylinder => DotShape::Cylinder,
        }
    }
}

/// The vertex of a Triangle that is not on the side between `v1` and `v2`.
pub fn opposite(v1: TriCorner, v2: TriCorner) -> (r: TriCorner)
    requires
        v1 != v2,
    ensures
        r != v1,
        r != v2,
{
    match (v1, v2) {
        (TriCorner::A, TriCorner::B) | (TriCorner::B, TriCorner::A) => TriCorner::C,
        (TriCorner::A, TriCorner::C) | (TriCorner::C, TriCorner::A) => TriCorner::B,
        _ => TriCorner::A,
    }
}

} // verus!
