use vstd::prelude::*;

verus! {

/// The closed set of ways in which an operation of this library can fail.
#[derive(Debug, Clone, Copy, PartialEq, Eq, Structural)]
pub enum ScadDotsError {
    /// No rotation exists between the given vectors.
    Rotation,
    /// A chain needs at least two elements.
    Chain,
    /// A taxicab path was given an axis order with a repeated axis.
    Snake,
    /// A ratio lies outside of `[0, 1]`.
    Ratio,
    /// A midpoint alignment can only be made from two corner alignments.
    Midpoint,
    /// A derived solid would be non-positive or self-intersecting.
    Dimension,
    /// An invalid combination of arguments.
    Args,
}

impl ScadDotsError {
    /// A short human-readable description of the failure.
    pub fn message(self) -> (r: String)
        ensures
            r@ == self.spec_message(),
    {
        match self {
            ScadDotsError::Rotation => "Failed to compute rotation".to_owned(),
            ScadDotsError::Chain => "Need at least 2 elements to chain".to_owned(),
            ScadDotsError::Snake => "Invalid snake axis order".to_owned(),
            ScadDotsError::Ratio => "Invalid ratio".to_owned(),
            ScadDotsError::Midpoint => "A Midpoint can only be made from 2 Corners.".to_owned(),
            ScadDotsError::Dimension => "Invalid dimensions".to_owned(),
            ScadDotsError::Args => "Invalid argument(s)".to_owned(),
        }
    }

    pub open spec fn spec_message(self) -> Seq<char> {
        match self {
            ScadDotsError::Rotation => "Failed to compute rotation"@,
            ScadDotsError::Chain => "Need at least 2 elements to chain"@,
            ScadDotsError::Snake => "Invalid snake axis order"@,
            ScadDotsError::Ratio => "Invalid ratio"@,
            ScadDotsError::Midpoint => "A Midpoint can only be made from 2 Corners."@,
            ScadDotsError::Dimension => "Invalid dimensions"@,
            ScadDotsError::Args => "Invalid argument(s)"@,
        }
    }
}

} // verus!
