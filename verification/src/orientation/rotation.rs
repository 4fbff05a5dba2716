//! Discretized rotations, stored in tenths of a degree.

use vstd::prelude::*;

use super::rotation_direction::RotationDirection;

verus! {

/// The clockwise offset, in tenths of a degree and reduced into `[0, 3600)`,
/// that takes the angle `from` onto the angle `to`.
pub open spec fn clockwise_offset(from: int, to: int) -> int {
    (to - from) % 3600
}

/// The length of the shorter arc between two measurements in `[0, 3600)`:
/// their difference, or what is left of the full circle when the difference exceeds half of it.
pub open spec fn arc_distance(a: int, b: int) -> int {
    let initial = if a >= b {
        a - b
    } else {
        b - a
    };
    if initial <= 1800 {
        initial
    } else {
        3600 - initial
    }
}

/// The direction of the shorter turn from `from` to `to`; a half turn counts as clockwise.
pub open spec fn shortest_direction(from: int, to: int) -> RotationDirection {
    if clockwise_offset(from, to) <= 1800 {
        RotationDirection::Clockwise
    } else {
        RotationDirection::CounterClockwise
    }
}

/// The stored measurement of the rotation that takes `from` onto `to`,
/// turning in `direction` when one is given and the shorter way otherwise;
/// it is reduced into `[0, 3600)`, so a turn of nothing either way is stored as 0.
pub open spec fn required_offset(from: int, to: int, direction: Option<RotationDirection>) -> int {
    let clockwise = clockwise_offset(from, to);
    match direction {
        Some(RotationDirection::Clockwise) => clockwise,
        Some(RotationDirection::CounterClockwise) => (3600 - clockwise) % 3600,
        None => if clockwise <= 1800 {
            clockwise
        } else {
            3600 - clockwise
        },
    }
}

/// The stored measurement reached by turning `current` towards `target` by at most `max`
/// (a measurement in `[0, 3600)`), or by snapping onto `target` when there is no limit
/// or the limit reaches it.
pub open spec fn rotated_towards(current: int, target: int, max: Option<int>) -> int {
    match max {
        None => target,
        Some(m) => if arc_distance(current, target) <= m {
            target
        } else {
            match shortest_direction(current, target) {
                RotationDirection::Clockwise => (current + m) % 3600,
                RotationDirection::CounterClockwise => (current + (3600 - m)) % 3600,
            }
        },
    }
}

/// A discretized 2-dimensional rotation
///
/// Internally, these are stored in normalized tenths of a degree, and so can be cleanly added
/// and reversed without accumulating error.
#[derive(Clone, Copy, Debug, PartialEq, Eq, Hash, PartialOrd, Structural)]
pub struct Rotation {
    /// Tenths of a degree, measured clockwise from midnight (x=0, y=1)
    ///
    /// 3600 make up a full circle.
    pub(crate) deci_degrees: u16,
}

impl View for Rotation {
    type V = nat;

    /// The stored measurement in tenths of a degree.
    closed spec fn view(&self) -> nat {
        self.deci_degrees as nat
    }
}

impl Rotation {
    /// A stored measurement is normalized: it lies below a full circle.
    #[verifier::type_invariant]
    spec fn within_circle(self) -> bool {
        self.deci_degrees < 3600
    }

    /// The rotation whose stored measurement is `deci_degrees`, for a measurement in `[0, 3600)`.
    pub closed spec fn with_measurement(deci_degrees: int) -> Rotation {
        Rotation { deci_degrees: deci_degrees as u16 }
    }

    /// A rotation is determined by its stored measurement.
    pub proof fn lemma_view_determines(a: Rotation, b: Rotation)
        requires
            a@ == b@,
        ensures
            a == b,
    {
    }

    /// The rotation built from a measurement stores that measurement.
    pub proof fn lemma_with_measurement(deci_degrees: int)
        requires
            0 <= deci_degrees < 3600,
        ensures
            Rotation::with_measurement(deci_degrees)@ == deci_degrees,
    {
    }

    /// The stored measurement of `self`, which lies below a full circle.
    pub(crate) fn measurement(&self) -> (d: u16)
        ensures
            d == self@,
            d < 3600,
    {
        proof {
            use_type_invariant(self);
        }
        self.deci_degrees
    }

    /// The number of deci-degrees that make up a full circle
    pub const FULL_CIRCLE: u16 = 3600;

    /// Creates a new [`Rotation`] from a whole number of tenths of a degree
    ///
    /// Measured clockwise from midnight.
    pub fn new(deci_degrees: u16) -> (r: Rotation)
        ensures
            r@ == deci_degrees % 3600,
    {
        Rotation { deci_degrees: deci_degrees % Rotation::FULL_CIRCLE }
    }

    /// Returns the exact internal measurement, stored in tenths of a degree
    ///
    /// Measured clockwise from midnight (x=0, y=1).
    /// 3600 make up a full circle.
    pub fn deci_degrees(&self) -> (d: u16)
        ensures
            d == self@,
            d < 3600,
    {
        self.measurement()
    }

    /// Whether `self` and `other` lie within two tenths of a degree of each other.
    pub fn approx_eq(&self, other: Rotation) -> (b: bool)
        ensures
            b == (arc_distance(self@ as int, other@ as int) <= 2),
    {
        self.arc_to(other).measurement() <= 2
    }
}

// Compass points
impl Rotation {
    /// The direction that points straight up
    #[allow(non_snake_case)]
    pub fn NORTH() -> (r: Rotation)
        ensures
            r@ == 0,
    {
        Rotation { deci_degrees: 0 }
    }

    /// The direction that points straight right
    #[allow(non_snake_case)]
    pub fn EAST() -> (r: Rotation)
        ensures
            r@ == 900,
    {
        Rotation { deci_degrees: 900 }
    }

    /// The direction that points straight down
    #[allow(non_snake_case)]
    pub fn SOUTH() -> (r: Rotation)
        ensures
            r@ == 1800,
    {
        Rotation { deci_degrees: 1800 }
    }

    /// The direction that points straight left
    #[allow(non_snake_case)]
    pub fn WEST() -> (r: Rotation)
        ensures
            r@ == 2700,
    {
        Rotation { deci_degrees: 2700 }
    }

    /// The direction that points halfway between up and right
    #[allow(non_snake_case)]
    pub fn NORTHEAST() -> (r: Rotation)
        ensures
            r@ == 450,
    {
        Rotation { deci_degrees: 450 }
    }

    /// The direction that points halfway between down and right
    #[allow(non_snake_case)]
    pub fn SOUTHEAST() -> (r: Rotation)
        ensures
            r@ == 1350,
    {
        Rotation { deci_degrees: 1350 }
    }

    /// The direction that points halfway between down and left
    #[allow(non_snake_case)]
    pub fn SOUTHWEST() -> (r: Rotation)
        ensures
            r@ == 2250,
    {
        Rotation { deci_degrees: 2250 }
    }

    /// The direction that points halfway between left and up
    #[allow(non_snake_case)]
    pub fn NORTHWEST() -> (r: Rotation)
        ensures
            r@ == 3150,
    {
        Rotation { deci_degrees: 3150 }
    }
}

impl Default for Rotation {
    /// A rotation of nothing: straight up.
    fn default() -> (r: Rotation)
        ensures
            r@ == 0,
    {
        Rotation { deci_degrees: 0 }
    }
}

// The turning rules that every orientation shares, worked out on rotations.
impl Rotation {
    /// Turning by `self` and then by `rhs`, reduced into a single circle.
    pub(crate) fn sum(self, rhs: Rotation) -> (r: Rotation)
        ensures
            r@ == (self@ + rhs@) % 3600,
    {
        Rotation::new(self.measurement() + rhs.measurement())
    }

    /// Turning by `self` and then back by `rhs`, reduced into a single circle.
    pub(crate) fn difference(self, rhs: Rotation) -> (r: Rotation)
        ensures
            r@ == (self@ - rhs@) % 3600,
    {
        let a = self.measurement();
        let b = rhs.measurement();
        if a >= b {
            Rotation::new(a - b)
        } else {
            Rotation::new(a + Rotation::FULL_CIRCLE - b)
        }
    }

    /// What is left of the full circle after `self`, normalized: the negation of a rotation
    /// of nothing is nothing.
    pub(crate) fn negation(self) -> (r: Rotation)
        ensures
            r@ == (3600 - self@) % 3600,
    {
        Rotation { deci_degrees: (Rotation::FULL_CIRCLE - self.measurement()) % Rotation::FULL_CIRCLE }
    }

    /// The length of the shorter arc between `self` and `other`.
    pub(crate) fn arc_to(&self, other: Rotation) -> (d: Rotation)
        ensures
            d@ == arc_distance(self@ as int, other@ as int),
            d@ <= 1800,
    {
        let a = self.measurement();
        let b = other.measurement();
        let initial_distance = if a >= b {
            a - b
        } else {
            b - a
        };
        if initial_distance <= Rotation::FULL_CIRCLE / 2 {
            Rotation { deci_degrees: initial_distance }
        } else {
            Rotation { deci_degrees: Rotation::FULL_CIRCLE - initial_distance }
        }
    }

    /// The rotation that takes `self` onto `target`, in `rotation_direction` or the shorter way.
    pub(crate) fn turn_to(&self, target: Rotation, rotation_direction: Option<RotationDirection>) -> (r: Rotation)
        ensures
            r@ == required_offset(self@ as int, target@ as int, rotation_direction),
    {
        let rotation_to = target.difference(*self);
        match rotation_direction {
            Some(RotationDirection::Clockwise) => rotation_to,
            Some(RotationDirection::CounterClockwise) => rotation_to.negation(),
            None => {
                if rotation_to.measurement() <= 1800 {
                    rotation_to
                } else {
                    rotation_to.negation()
                }
            },
        }
    }

    /// The direction of the shorter turn from `self` to `target`, clockwise on a tie.
    pub(crate) fn direction_to(&self, target: Rotation) -> (d: RotationDirection)
        ensures
            d == shortest_direction(self@ as int, target@ as int),
    {
        let rotation_to = target.difference(*self);
        if rotation_to.measurement() <= 1800 {
            RotationDirection::Clockwise
        } else {
            RotationDirection::CounterClockwise
        }
    }

    /// `self` turned towards `target` by at most `max_rotation`, or onto it.
    pub(crate) fn turned_towards(&self, target: Rotation, max_rotation: Option<Rotation>) -> (r: Rotation)
        ensures
            r@ == rotated_towards(
                self@ as int,
                target@ as int,
                match max_rotation {
                    Some(m) => Some(m@ as int),
                    None => None,
                },
            ),
    {
        if let Some(max_rotation) = max_rotation {
            if self.arc_to(target).measurement() <= max_rotation.measurement() {
                target
            } else {
                let delta_rotation = match self.direction_to(target) {
                    RotationDirection::Clockwise => max_rotation,
                    RotationDirection::CounterClockwise => max_rotation.negation(),
                };
                self.sum(delta_rotation)
            }
        } else {
            target
        }
    }
}

impl vstd::std_specs::ops::AddSpecImpl for Rotation {
    open spec fn obeys_add_spec() -> bool {
        true
    }

    open spec fn add_req(self, rhs: Rotation) -> bool {
        true
    }

    open spec fn add_spec(self, rhs: Rotation) -> Rotation {
        Rotation::with_measurement(((self@ + rhs@) % 3600) as int)
    }
}

impl vstd::std_specs::ops::SubSpecImpl for Rotation {
    open spec fn obeys_sub_spec() -> bool {
        true
    }

    open spec fn sub_req(self, rhs: Rotation) -> bool {
        true
    }

    open spec fn sub_spec(self, rhs: Rotation) -> Rotation {
        Rotation::with_measurement((self@ as int - rhs@ as int) % 3600)
    }
}

impl vstd::std_specs::ops::NegSpecImpl for Rotation {
    open spec fn obeys_neg_spec() -> bool {
        true
    }

    open spec fn neg_req(self) -> bool {
        true
    }

    open spec fn neg_spec(self) -> Rotation {
        Rotation::with_measurement((3600 - self@ as int) % 3600)
    }
}

impl core::ops::Add for Rotation {
    type Output = Rotation;

    /// Turns by both rotations; the sum is reduced into a single circle.
    fn add(self, rhs: Rotation) -> (r: Rotation)
        ensures
            r@ == (self@ + rhs@) % 3600,
    {
        self.sum(rhs)
    }
}

impl core::ops::Sub for Rotation {
    type Output = Rotation;

    /// Turns by `self`, then back by `rhs`; the difference is reduced into a single circle.
    fn sub(self, rhs: Rotation) -> (r: Rotation)
        ensures
            r@ == (self@ - rhs@) % 3600,
    {
        self.difference(rhs)
    }
}

impl core::ops::Neg for Rotation {
    type Output = Rotation;

    /// The rotation that undoes `self`: what is left of the full circle, normalized, so that
    /// the negation of a rotation of nothing is nothing.
    fn neg(self) -> (r: Rotation)
        ensures
            r@ == (3600 - self@) % 3600,
    {
        self.negation()
    }
}

impl core::ops::AddAssign for Rotation {
    /// Turns `self` further by `rhs`, reducing into a single circle.
    fn add_assign(&mut self, rhs: Rotation)
        ensures
            final(self)@ == (old(self)@ + rhs@) % 3600,
    {
        let a = self.measurement();
        self.deci_degrees = (a + rhs.measurement()) % Rotation::FULL_CIRCLE;
    }
}

impl core::ops::SubAssign for Rotation {
    /// Turns `self` back by `rhs`, reducing into a single circle, as the subtraction operator does.
    fn sub_assign(&mut self, rhs: Rotation)
        ensures
            final(self)@ == (old(self)@ - rhs@) % 3600,
    {
        let a = self.measurement();
        let b = rhs.measurement();
        if a >= b {
            self.deci_degrees = a - b;
        } else {
            self.deci_degrees = Rotation::FULL_CIRCLE - (b - a);
        }
    }
}

} // verus!
