//! Parametric solid modelling by semantic alignment points.
//!
//! The verified core of the library: the vocabulary of axes, corners and
//! faces, the alignment algebra of every composite shape, the shape
//! selections, the composite shapes and how their Dots are linked, the CSG
//! tree with its builders, and the taxicab path planner. Positions, sizes
//! and rotations are floating-point values and stay outside this crate: a
//! composite is generic over the Dot it holds.

pub mod align;
pub mod axes;
pub mod composite;
pub mod error;
pub mod shapes;
pub mod snake;
pub mod tree;
