//! Orientations that can be worked out from the positions of two points.

use vstd::prelude::*;

use super::orientation_trait;
use super::orientation_trait::Orientation;
use super::rotation::Rotation;
use crate::errors::NearlySingularConversion;

verus! {

/// Tools that require both positions and an [`Orientation`]
///
/// `P` is the type of the positions. Working out the orientation from one position to
/// another is arithmetic on the positions' coordinates, which each implementation supplies;
/// what is done with the outcome is shared.
pub trait OrientationPositionInterop<P>: Orientation {
    /// Computes the orientation from `position_a` to `position_b`
    ///
    /// Fails with [`NearlySingularConversion`] when the two positions nearly coincide.
    fn orientation_between_positions(
        position_a: P,
        position_b: P,
    ) -> Result<Self, NearlySingularConversion>;

    /// Rotates `self` towards the outcome of working out a target orientation, by up to
    /// `max_rotation`; a failed outcome leaves `self` as it is.
    fn rotate_towards_outcome(
        &mut self,
        outcome: Result<Self, NearlySingularConversion>,
        max_rotation: Option<Rotation>,
    )
        ensures
            match outcome {
                Ok(target_orientation) => orientation_trait::turns_towards(
                    *old(self),
                    target_orientation,
                    max_rotation,
                    *final(self),
                ),
                Err(_) => *final(self) == *old(self),
            },
    {
        if let Ok(target_orientation) = outcome {
            self.rotate_towards(target_orientation, max_rotation);
        }
    }

    /// Rotates `self` towards `target_position` by up to `max_rotation`
    ///
    /// The target orientation is what [`orientation_between_positions`](Self::orientation_between_positions)
    /// gives for the two positions; when that fails, `self` stays as it is.
    fn rotate_towards_position(
        &mut self,
        current_position: P,
        target_position: P,
        max_rotation: Option<Rotation>,
    )
        ensures
            exists|outcome: Result<Self, NearlySingularConversion>|
                {
                    &&& call_ensures(
                        Self::orientation_between_positions,
                        (current_position, target_position),
                        outcome,
                    )
                    &&& match outcome {
                        Ok(target_orientation) => orientation_trait::turns_towards(
                            *old(self),
                            target_orientation,
                            max_rotation,
                            *final(self),
                        ),
                        Err(_) => *final(self) == *old(self),
                    }
                },
    {
        let outcome = Self::orientation_between_positions(current_position, target_position);
        self.rotate_towards_outcome(outcome, max_rotation);
    }
}

} // verus!
