//! Orientations: anything that stands for a direction in the plane and converts to and from
//! a [`Rotation`].

use vstd::prelude::*;

use super::rotation;
use super::rotation::Rotation;
use super::rotation_direction::RotationDirection;

verus! {

/// `Some` of the measurement of a limit, or `None` when there is no limit.
pub open spec fn limit_measurement(max_rotation: Option<Rotation>) -> Option<int> {
    match max_rotation {
        Some(m) => Some(m@ as int),
        None => None,
    }
}

/// Whether `result` is what turning `current` towards `target` by at most `max_rotation` gives:
/// the target itself when there is no limit or the limit reaches it, and otherwise the
/// orientation of the rotation reached by turning the limit the shorter way round.
pub open spec fn turns_towards<O: Orientation>(
    current: O,
    target: O,
    max_rotation: Option<Rotation>,
    result: O,
) -> bool {
    match max_rotation {
        None => result == target,
        Some(max) => if rotation::arc_distance(current.rotation_of()@ as int, target.rotation_of()@ as int)
            <= max@ {
            result == target
        } else {
            exists|turned: Rotation|
                {
                    &&& turned@ == rotation::rotated_towards(
                        current.rotation_of()@ as int,
                        target.rotation_of()@ as int,
                        limit_measurement(max_rotation),
                    )
                    &&& result == O::orientation_of(turned)
                }
        },
    }
}

/// A type that can represent a orientation in 2D space
///
/// Every rule is worked out on the [`Rotation`]s that orientations convert into;
/// a rotation that results is converted back.
pub trait Orientation: Sized + From<Rotation> + Into<Rotation> + Copy {
    /// The rotation that `self` stands for: what converting it `into` a [`Rotation`] gives.
    open spec fn rotation_of(self) -> Rotation {
        <Self as vstd::std_specs::convert::IntoSpec<Rotation>>::into_spec(self)
    }

    /// The orientation that stands for `rotation`: what converting it `from` a [`Rotation`] gives.
    open spec fn orientation_of(rotation: Rotation) -> Self {
        <Self as vstd::std_specs::convert::FromSpec<Rotation>>::from_spec(rotation)
    }

    /// Converts `self` into the [`Rotation`] it stands for.
    ///
    /// An implementation gives what converting with [`Into`] gives, the same for equal inputs.
    fn into_rotation(self) -> (r: Rotation)
        ensures
            r == self.rotation_of(),
    ;

    /// Converts a [`Rotation`] into the orientation that stands for it.
    ///
    /// An implementation gives what converting with [`From`] gives, the same for equal inputs.
    fn from_rotation(rotation: Rotation) -> (o: Self)
        ensures
            o == Self::orientation_of(rotation),
    ;

    /// Returns the absolute distance between `self` and `other` as a [`Rotation`]
    ///
    /// The shortest path will always be taken, and so this value ranges between 0 and 180 degrees.
    /// Simply subtract the two rotations if you want a signed value instead.
    fn distance(&self, other: Self) -> (d: Rotation)
        ensures
            d@ == rotation::arc_distance(self.rotation_of()@ as int, other.rotation_of()@ as int),
            d@ <= 1800,
    {
        let self_rotation = (*self).into_rotation();
        let other_rotation = other.into_rotation();
        self_rotation.arc_to(other_rotation)
    }

    /// Computes the [`Orientation`] that must be applied to `self` so that it matches `target`
    ///
    /// The rotation will be performed in `rotation_direction` is supplied.
    /// Otherwise, the shorter distance will be preferred.
    fn required_orientation_to(
        &self,
        target: Self,
        rotation_direction: Option<RotationDirection>,
    ) -> (r: Self)
        ensures
            exists|turn: Rotation|
                {
                    &&& turn@ == rotation::required_offset(
                        self.rotation_of()@ as int,
                        target.rotation_of()@ as int,
                        rotation_direction,
                    )
                    &&& r == Self::orientation_of(turn)
                },
    {
        let self_rotation = (*self).into_rotation();
        let target_rotation = target.into_rotation();
        let turn = self_rotation.turn_to(target_rotation, rotation_direction);
        Self::from_rotation(turn)
    }

    /// Which [`RotationDirection`] is the shortest to rotate towards to reach `target`?
    ///
    /// In the case of ties, [`RotationDirection::Clockwise`] will be returned.
    fn rotation_direction(&self, target: Self) -> (d: RotationDirection)
        ensures
            d == rotation::shortest_direction(self.rotation_of()@ as int, target.rotation_of()@ as int),
    {
        let self_rotation = (*self).into_rotation();
        let target_rotation = target.into_rotation();
        self_rotation.direction_to(target_rotation)
    }

    /// Rotates `self` towards `target_orientation` by up to `max_rotation`
    ///
    /// Without a `max_rotation`, the orientation snaps onto the target.
    fn rotate_towards(&mut self, target_orientation: Self, max_rotation: Option<Rotation>)
        ensures
            match max_rotation {
                None => *final(self) == target_orientation,
                Some(max) => if rotation::arc_distance(
                    old(self).rotation_of()@ as int,
                    target_orientation.rotation_of()@ as int,
                ) <= max@ {
                    *final(self) == target_orientation
                } else {
                    exists|turned: Rotation|
                        {
                            &&& turned@ == rotation::rotated_towards(
                                old(self).rotation_of()@ as int,
                                target_orientation.rotation_of()@ as int,
                                limit_measurement(max_rotation),
                            )
                            &&& *final(self) == Self::orientation_of(turned)
                        }
                },
            },
    {
        if let Some(max_rotation) = max_rotation {
            if self.distance(target_orientation).deci_degrees() <= max_rotation.deci_degrees() {
                *self = target_orientation;
            } else {
                let current_rotation = (*self).into_rotation();
                let target_rotation = target_orientation.into_rotation();
                let new_rotation = current_rotation.turned_towards(
                    target_rotation,
                    Some(max_rotation),
                );
                *self = Self::from_rotation(new_rotation);
            }
        } else {
            *self = target_orientation;
        }
    }
}

impl Orientation for Rotation {
    open spec fn rotation_of(self) -> Rotation {
        self
    }

    open spec fn orientation_of(rotation: Rotation) -> Rotation {
        rotation
    }

    fn into_rotation(self) -> (r: Rotation) {
        self
    }

    fn from_rotation(rotation: Rotation) -> (o: Rotation) {
        rotation
    }
}

} // verus!
