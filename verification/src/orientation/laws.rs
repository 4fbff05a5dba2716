//! What holds of rotations across their operations.
//!
//! Every law is stated over the views that the operations' own contracts use: a rotation's
//! stored measurement `r@`, in tenths of a degree, which every rotation keeps below a full circle.

use vstd::prelude::*;

use super::orientation_trait;
use super::orientation_trait::Orientation;
use super::rotation;
use super::rotation::Rotation;
use super::rotation_direction::RotationDirection;

verus! {

/// The direction that a requested turn is made in: the one asked for, or else the shorter way.
pub open spec fn chosen_direction(
    from: int,
    to: int,
    rotation_direction: Option<RotationDirection>,
) -> RotationDirection {
    match rotation_direction {
        Some(direction) => direction,
        None => rotation::shortest_direction(from, to),
    }
}

/// Reversing a direction twice gives it back.
pub proof fn law_reverse_involution(direction: RotationDirection)
    ensures
        direction.reverse_spec().reverse_spec() == direction,
{
}

/// The reversed direction has the opposite sign.
pub proof fn law_reverse_negates_sign(direction: RotationDirection)
    ensures
        direction.reverse_spec().sign_spec() == -direction.sign_spec(),
{
}

/// Addition of rotations does not depend on the order of its operands.
pub proof fn law_add_commutative(a: Rotation, b: Rotation)
    ensures
        (a@ + b@) % 3600 == (b@ + a@) % 3600,
{
}

/// Addition of rotations is associative.
pub proof fn law_add_associative(a: Rotation, b: Rotation, c: Rotation)
    ensures
        (((a@ + b@) % 3600) + c@) % 3600 == (a@ + ((b@ + c@) % 3600)) % 3600,
{
}

/// Subtracting a rotation undoes adding it: the result is the first rotation reduced into a
/// single circle.
pub proof fn law_sub_undoes_add(a: Rotation, b: Rotation)
    requires
        a@ < 3600,
        b@ < 3600,
    ensures
        (((a@ + b@) % 3600) as int - b@ as int) % 3600 == a@ % 3600,
{
}

/// Adding a rotation undoes subtracting it.
pub proof fn law_add_undoes_sub(a: Rotation, b: Rotation)
    requires
        a@ < 3600,
        b@ < 3600,
    ensures
        (((a@ as int - b@ as int) % 3600) + b@) % 3600 == a@ % 3600,
{
}

/// Negation stores what is left of the full circle, reduced into a single circle; a rotation
/// plus its negation is no rotation at all.
pub proof fn law_add_neg_is_north(a: Rotation)
    requires
        a@ < 3600,
    ensures
        (3600 - a@) % 3600 < 3600,
        (a@ + (3600 - a@) % 3600) % 3600 == 0,
{
}

/// Negating twice gives back the stored measurement exactly.
pub proof fn law_neg_involution(a: Rotation)
    requires
        a@ < 3600,
    ensures
        (3600 - (3600 - a@) % 3600) % 3600 == a@,
{
}

/// Subtracting a rotation is adding its negation.
pub proof fn law_sub_is_add_neg(a: Rotation, b: Rotation)
    requires
        a@ < 3600,
        b@ < 3600,
    ensures
        (a@ as int - b@ as int) % 3600 == (a@ + (3600 - b@) % 3600) % 3600,
{
}

/// The distance between two rotations is the shorter of the two ways round, does not depend
/// on the order of the two, is never more than half a circle, and is zero from a rotation to itself.
pub proof fn law_distance_is_shorter_way(a: Rotation, b: Rotation)
    requires
        a@ < 3600,
        b@ < 3600,
    ensures
        rotation::arc_distance(a@ as int, b@ as int) == if rotation::clockwise_offset(
            a@ as int,
            b@ as int,
        ) <= rotation::clockwise_offset(b@ as int, a@ as int) {
            rotation::clockwise_offset(a@ as int, b@ as int)
        } else {
            rotation::clockwise_offset(b@ as int, a@ as int)
        },
        rotation::arc_distance(a@ as int, b@ as int) == rotation::arc_distance(b@ as int, a@ as int),
        0 <= rotation::arc_distance(a@ as int, b@ as int) <= 1800,
        rotation::arc_distance(a@ as int, a@ as int) == 0,
{
}

/// The direction of the shorter turn from `a` to `b` is the reverse of the one from `b` to
/// `a`, unless the two coincide or lie half a circle apart, where both turns are clockwise.
pub proof fn law_direction_reverses(a: Rotation, b: Rotation)
    requires
        a@ < 3600,
        b@ < 3600,
    ensures
        rotation::clockwise_offset(a@ as int, b@ as int) != 0 && rotation::clockwise_offset(
            a@ as int,
            b@ as int,
        ) != 1800 ==> rotation::shortest_direction(b@ as int, a@ as int)
            == rotation::shortest_direction(a@ as int, b@ as int).reverse_spec(),
        rotation::clockwise_offset(a@ as int, b@ as int) == 0 || rotation::clockwise_offset(
            a@ as int,
            b@ as int,
        ) == 1800 ==> rotation::shortest_direction(b@ as int, a@ as int)
            == RotationDirection::Clockwise && rotation::shortest_direction(a@ as int, b@ as int)
            == RotationDirection::Clockwise,
{
}

/// The required rotation, applied from `from` in the direction it is made in, reaches `to`.
/// Without a requested direction, it is no longer than the distance between the two and is
/// made in the direction of the shorter turn.
pub proof fn law_required_rotation_reaches_target(
    from: Rotation,
    to: Rotation,
    rotation_direction: Option<RotationDirection>,
)
    requires
        from@ < 3600,
        to@ < 3600,
    ensures
        (from@ + chosen_direction(from@ as int, to@ as int, rotation_direction).sign_spec()
            * rotation::required_offset(from@ as int, to@ as int, rotation_direction)) % 3600 == to@
            % 3600,
        rotation_direction is None ==> rotation::required_offset(from@ as int, to@ as int, None)
            == rotation::arc_distance(from@ as int, to@ as int),
        rotation::required_offset(from@ as int, to@ as int, None) == rotation::required_offset(
            from@ as int,
            to@ as int,
            Some(rotation::shortest_direction(from@ as int, to@ as int)),
        ),
{
}

/// Turning towards a target by at most a limit never overshoots: afterwards the distance to
/// the target has shrunk by exactly the limit, or to nothing when the limit reaches it.
/// Without a limit, the target is reached.
pub proof fn law_rotate_towards_closes_in(current: Rotation, target: Rotation, max_rotation: Option<Rotation>)
    requires
        current@ < 3600,
        target@ < 3600,
        max_rotation matches Some(m) ==> m@ < 3600,
    ensures
        ({
            let turned = rotation::rotated_towards(
                current@ as int,
                target@ as int,
                match max_rotation {
                    Some(m) => Some(m@ as int),
                    None => None,
                },
            );
            let before = rotation::arc_distance(current@ as int, target@ as int);
            let after = rotation::arc_distance(turned, target@ as int);
            &&& 0 <= turned < 3600
            &&& match max_rotation {
                None => after == 0,
                Some(m) => if before <= m@ {
                    after == 0
                } else {
                    after == before - m@
                },
            }
        }),
{
}

/// Turning an orientation towards a target by at most a limit has one result: any two
/// results of the same turn are equal.
pub proof fn law_turn_is_determined<O: Orientation>(
    current: O,
    target: O,
    max_rotation: Option<Rotation>,
    first: O,
    second: O,
)
    requires
        orientation_trait::turns_towards(current, target, max_rotation, first),
        orientation_trait::turns_towards(current, target, max_rotation, second),
    ensures
        first == second,
{
    if let Some(max) = max_rotation {
        if rotation::arc_distance(current.rotation_of()@ as int, target.rotation_of()@ as int)
            > max@ {
            let measurement = rotation::rotated_towards(
                current.rotation_of()@ as int,
                target.rotation_of()@ as int,
                orientation_trait::limit_measurement(max_rotation),
            );
            let first_turned = choose|turned: Rotation|
                {
                    &&& turned@ == measurement
                    &&& first == O::orientation_of(turned)
                };
            let second_turned = choose|turned: Rotation|
                {
                    &&& turned@ == measurement
                    &&& second == O::orientation_of(turned)
                };
            Rotation::lemma_view_determines(first_turned, second_turned);
        }
    }
}

/// For rotations, a turn towards a target stores exactly the measurement that
/// `rotated_towards` gives.
pub proof fn law_rotation_turn_measurement(
    current: Rotation,
    target: Rotation,
    max_rotation: Option<Rotation>,
    result: Rotation,
)
    requires
        orientation_trait::turns_towards(current, target, max_rotation, result),
    ensures
        result@ == rotation::rotated_towards(
            current@ as int,
            target@ as int,
            orientation_trait::limit_measurement(max_rotation),
        ),
{
}

/// Turning a rotation towards a target by a limit that falls short of it moves exactly the
/// limit away from where it started, in the direction of the shorter turn, and stops on the
/// arc between the start and the target: the distance already turned and the distance left
/// add up to the distance there was. A limit that reaches the target lands on it.
pub proof fn law_turn_stops_on_the_arc(
    current: Rotation,
    target: Rotation,
    max_rotation: Option<Rotation>,
    result: Rotation,
)
    requires
        current@ < 3600,
        target@ < 3600,
        max_rotation matches Some(m) ==> m@ < 3600,
        orientation_trait::turns_towards(current, target, max_rotation, result),
    ensures
        ({
            let c = current@ as int;
            let t = target@ as int;
            let r = result@ as int;
            let before = rotation::arc_distance(c, t);
            match max_rotation {
                None => r == t,
                Some(m) => if before <= m@ {
                    r == t
                } else {
                    &&& 0 <= r < 3600
                    &&& rotation::arc_distance(c, r) == m@
                    &&& rotation::arc_distance(c, r) + rotation::arc_distance(r, t) == before
                    &&& rotation::shortest_direction(c, t) == RotationDirection::Clockwise
                        ==> rotation::clockwise_offset(c, r) == m@
                    &&& rotation::shortest_direction(c, t) == RotationDirection::CounterClockwise
                        ==> rotation::clockwise_offset(r, c) == m@
                },
            }
        }),
{
}

} // verus!
