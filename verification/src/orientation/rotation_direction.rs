//! The direction in which a rotation is applied.

use vstd::prelude::*;

verus! {

/// A direction that a [`Rotation`](super::Rotation) can be applied in
#[derive(Debug, Clone, Copy, PartialEq, Eq, Structural)]
pub enum RotationDirection {
    /// Corresponds to a positive rotation
    Clockwise,
    /// Corresponds to a negative rotation
    CounterClockwise,
}

impl RotationDirection {
    /// The sign of a direction: `1` for clockwise, `-1` for counterclockwise.
    pub open spec fn sign_spec(self) -> int {
        match self {
            RotationDirection::Clockwise => 1,
            RotationDirection::CounterClockwise => -1,
        }
    }

    /// The opposite direction.
    pub open spec fn reverse_spec(self) -> RotationDirection {
        match self {
            RotationDirection::Clockwise => RotationDirection::CounterClockwise,
            RotationDirection::CounterClockwise => RotationDirection::Clockwise,
        }
    }

    /// The sign of the corresponding [`Rotation`](super::Rotation)
    ///
    /// Returns 1 if [`RotationDirection::Clockwise`],
    /// or -1 if [`RotationDirection::CounterClockwise`]
    pub fn sign(self) -> (s: isize)
        ensures
            s == self.sign_spec(),
    {
        match self {
            RotationDirection::Clockwise => 1,
            RotationDirection::CounterClockwise => -1,
        }
    }

    /// Reverses the direction into the opposite enum variant
    pub fn reverse(self) -> (r: RotationDirection)
        ensures
            r == self.reverse_spec(),
    {
        match self {
            RotationDirection::Clockwise => RotationDirection::CounterClockwise,
            RotationDirection::CounterClockwise => RotationDirection::Clockwise,
        }
    }
}

impl Default for RotationDirection {
    /// [`RotationDirection::Clockwise`] is the default direction.
    fn default() -> (r: RotationDirection)
        ensures
            r == RotationDirection::Clockwise,
    {
        RotationDirection::Clockwise
    }
}

} // verus!
