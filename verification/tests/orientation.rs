use leafwing_2d::errors::NearlySingularConversion;
use leafwing_2d::orientation::{Orientation, OrientationPositionInterop, Rotation, RotationDirection};

#[test]
fn rotation_direction_doc_example() {
    assert_eq!(
        Rotation::NORTH().rotation_direction(Rotation::NORTH()),
        RotationDirection::Clockwise
    );
    assert_eq!(
        Rotation::NORTH().rotation_direction(Rotation::EAST()),
        RotationDirection::Clockwise
    );
    assert_eq!(
        Rotation::NORTH().rotation_direction(Rotation::WEST()),
        RotationDirection::CounterClockwise
    );
    assert_eq!(
        Rotation::NORTH().rotation_direction(Rotation::SOUTH()),
        RotationDirection::Clockwise
    );
}

#[test]
fn rotation_direction_between_compass_points() {
    assert_eq!(
        Rotation::WEST().rotation_direction(Rotation::SOUTH()),
        RotationDirection::CounterClockwise
    );
    assert_eq!(
        Rotation::SOUTH().rotation_direction(Rotation::WEST()),
        RotationDirection::Clockwise
    );
}

#[test]
fn rotation_direction_tie_is_clockwise() {
    assert_eq!(
        Rotation::EAST().rotation_direction(Rotation::WEST()),
        RotationDirection::Clockwise
    );
    assert_eq!(
        Rotation::WEST().rotation_direction(Rotation::EAST()),
        RotationDirection::Clockwise
    );
}

#[test]
fn required_orientation_to_doc_example() {
    assert_eq!(
        Rotation::NORTH().required_orientation_to(Rotation::NORTH(), None),
        Rotation::default()
    );
    assert_eq!(
        Rotation::NORTH()
            .required_orientation_to(Rotation::EAST(), Some(RotationDirection::Clockwise)),
        Rotation::new(900)
    );
    assert_eq!(
        Rotation::NORTH().required_orientation_to(
            Rotation::EAST(),
            Some(RotationDirection::CounterClockwise)
        ),
        Rotation::new(2700)
    );
}

#[test]
fn required_orientation_to_prefers_shorter_turn() {
    // From north, west is a quarter turn counterclockwise.
    let turn = Rotation::NORTH().required_orientation_to(Rotation::WEST(), None);
    assert_eq!(turn.deci_degrees(), 900);
    let turn = Rotation::NORTH().required_orientation_to(Rotation::new(450), None);
    assert_eq!(turn.deci_degrees(), 450);
    // A counterclockwise turn of nothing is stored normalized, as nothing.
    let turn = Rotation::EAST()
        .required_orientation_to(Rotation::EAST(), Some(RotationDirection::CounterClockwise));
    assert_eq!(turn.deci_degrees(), 0);
    // A counterclockwise turn carries the start onto the target when subtracted.
    let turn = Rotation::EAST()
        .required_orientation_to(Rotation::NORTH(), Some(RotationDirection::CounterClockwise));
    assert_eq!(turn.deci_degrees(), 900);
    assert_eq!(Rotation::EAST() - turn, Rotation::NORTH());
}

#[test]
fn rotate_towards_doc_example() {
    let mut rotation = Rotation::SOUTH();

    // Without a `max_rotation`, the orientation snaps
    rotation.rotate_towards(Rotation::WEST(), None);
    assert_eq!(rotation, Rotation::WEST());

    // With a `max_rotation`, we don't get all the way there
    rotation.rotate_towards(Rotation::SOUTH(), Some(Rotation::new(450)));
    assert_eq!(rotation, Rotation::SOUTHWEST());
}

#[test]
fn rotate_towards_snaps_when_limit_reaches() {
    let mut rotation = Rotation::NORTH();
    rotation.rotate_towards(Rotation::EAST(), Some(Rotation::new(900)));
    assert_eq!(rotation, Rotation::EAST());

    let mut rotation = Rotation::NORTH();
    rotation.rotate_towards(Rotation::EAST(), Some(Rotation::new(1000)));
    assert_eq!(rotation, Rotation::EAST());
}

#[test]
fn rotate_towards_turns_clockwise_by_the_limit() {
    let mut rotation = Rotation::NORTH();
    rotation.rotate_towards(Rotation::EAST(), Some(Rotation::new(300)));
    assert_eq!(rotation.deci_degrees(), 300);
    // The distance to the target shrank by exactly the limit.
    assert_eq!(rotation.distance(Rotation::EAST()).deci_degrees(), 600);
}

#[test]
fn rotate_towards_turns_counterclockwise_across_north() {
    let mut rotation = Rotation::new(100);
    rotation.rotate_towards(Rotation::WEST(), Some(Rotation::new(300)));
    assert_eq!(rotation.deci_degrees(), 3400);
    assert_eq!(rotation.distance(Rotation::WEST()).deci_degrees(), 700);
}

#[test]
fn rotation_direction_enum_doc_example() {
    assert_eq!(RotationDirection::Clockwise.sign(), 1);
    assert_eq!(RotationDirection::CounterClockwise.sign(), -1);
    assert_eq!(RotationDirection::default(), RotationDirection::Clockwise);
}

#[test]
fn reverse_flips_and_undoes() {
    assert_eq!(
        RotationDirection::Clockwise.reverse(),
        RotationDirection::CounterClockwise
    );
    assert_eq!(
        RotationDirection::CounterClockwise.reverse(),
        RotationDirection::Clockwise
    );
    for direction in [RotationDirection::Clockwise, RotationDirection::CounterClockwise] {
        assert_eq!(direction.reverse().reverse(), direction);
        assert_eq!(direction.reverse().sign(), -direction.sign());
    }
}

#[test]
fn new_reduces_into_one_circle() {
    assert_eq!(Rotation::new(0).deci_degrees(), 0);
    assert_eq!(Rotation::new(3599).deci_degrees(), 3599);
    assert_eq!(Rotation::new(3600).deci_degrees(), 0);
    assert_eq!(Rotation::new(3700).deci_degrees(), 100);
    assert_eq!(Rotation::new(u16::MAX).deci_degrees(), 65535 % 3600);
    assert_eq!(Rotation::FULL_CIRCLE, 3600);
}

#[test]
fn compass_points() {
    assert_eq!(Rotation::NORTH().deci_degrees(), 0);
    assert_eq!(Rotation::NORTHEAST().deci_degrees(), 450);
    assert_eq!(Rotation::EAST().deci_degrees(), 900);
    assert_eq!(Rotation::SOUTHEAST().deci_degrees(), 1350);
    assert_eq!(Rotation::SOUTH().deci_degrees(), 1800);
    assert_eq!(Rotation::SOUTHWEST().deci_degrees(), 2250);
    assert_eq!(Rotation::WEST().deci_degrees(), 2700);
    assert_eq!(Rotation::NORTHWEST().deci_degrees(), 3150);
    assert_eq!(Rotation::default(), Rotation::NORTH());
}

#[test]
fn addition_wraps_around() {
    assert_eq!(Rotation::EAST() + Rotation::SOUTH(), Rotation::WEST());
    assert_eq!(Rotation::WEST() + Rotation::SOUTH(), Rotation::EAST());
    assert_eq!(Rotation::WEST() + Rotation::EAST(), Rotation::NORTH());
    assert_eq!(
        Rotation::NORTHEAST() + Rotation::SOUTHWEST(),
        Rotation::SOUTHWEST() + Rotation::NORTHEAST()
    );
}

#[test]
fn subtraction_wraps_around() {
    assert_eq!(Rotation::WEST() - Rotation::EAST(), Rotation::SOUTH());
    assert_eq!(Rotation::EAST() - Rotation::WEST(), Rotation::SOUTH());
    assert_eq!(Rotation::NORTH() - Rotation::EAST(), Rotation::WEST());
    assert_eq!(Rotation::EAST() - Rotation::EAST(), Rotation::NORTH());
}

#[test]
fn subtraction_undoes_addition() {
    for a in [0u16, 1, 450, 1799, 1800, 2700, 3599] {
        for b in [0u16, 1, 900, 1800, 3599] {
            let a = Rotation::new(a);
            let b = Rotation::new(b);
            assert_eq!((a + b) - b, a);
            assert_eq!((a - b) + b, a);
        }
    }
}

#[test]
fn negation() {
    assert_eq!((-Rotation::EAST()).deci_degrees(), 2700);
    assert_eq!(-(-Rotation::EAST()), Rotation::EAST());
    // The negation of a rotation of nothing is nothing.
    assert_eq!(-Rotation::NORTH(), Rotation::NORTH());
    assert_eq!((-Rotation::NORTH()).deci_degrees(), 0);
    assert_eq!(-(-Rotation::NORTH()), Rotation::NORTH());
    assert_eq!(Rotation::NORTHEAST() + -Rotation::NORTHEAST(), Rotation::NORTH());
    assert_eq!(
        Rotation::SOUTH() - Rotation::NORTHEAST(),
        Rotation::SOUTH() + -Rotation::NORTHEAST()
    );
}

#[test]
fn add_assign_matches_add() {
    let mut rotation = Rotation::WEST();
    rotation += Rotation::SOUTH();
    assert_eq!(rotation, Rotation::WEST() + Rotation::SOUTH());
    assert_eq!(rotation.deci_degrees(), 900);
}

#[test]
fn sub_assign_matches_subtraction() {
    let mut rotation = Rotation::EAST();
    rotation -= Rotation::NORTHEAST();
    assert_eq!(rotation.deci_degrees(), 450);

    let mut rotation = Rotation::NORTHEAST();
    rotation -= Rotation::EAST();
    assert_eq!(rotation.deci_degrees(), 3150);

    // Subtracting a rotation from itself in place gives north, as the operator does.
    let mut rotation = Rotation::EAST();
    rotation -= Rotation::EAST();
    assert_eq!(rotation, Rotation::NORTH());
    assert_eq!(rotation.deci_degrees(), 0);

    for a in [0u16, 1, 900, 1800, 3599] {
        for b in [0u16, 1, 900, 1800, 3599] {
            let mut in_place = Rotation::new(a);
            in_place -= Rotation::new(b);
            assert_eq!(in_place, Rotation::new(a) - Rotation::new(b));
            assert!(in_place.deci_degrees() < 3600);
        }
    }
}

#[test]
fn distance_is_the_shorter_way() {
    assert_eq!(Rotation::NORTH().distance(Rotation::EAST()).deci_degrees(), 900);
    assert_eq!(Rotation::NORTH().distance(Rotation::WEST()).deci_degrees(), 900);
    assert_eq!(
        Rotation::NORTH().distance(Rotation::SOUTHWEST()).deci_degrees(),
        1350
    );
    assert_eq!(Rotation::EAST().distance(Rotation::WEST()).deci_degrees(), 1800);
    assert_eq!(Rotation::EAST().distance(Rotation::EAST()).deci_degrees(), 0);
    assert_eq!(
        Rotation::new(100).distance(Rotation::new(3500)),
        Rotation::new(3500).distance(Rotation::new(100))
    );
    assert_eq!(Rotation::new(100).distance(Rotation::new(3500)).deci_degrees(), 200);
    // Opposite points lie half a circle apart either way.
    assert_eq!((-Rotation::EAST()).distance(Rotation::EAST()).deci_degrees(), 1800);
}

#[test]
fn approx_eq_within_two_tenths() {
    assert!(Rotation::new(1).approx_eq(Rotation::new(3599)));
    assert!(Rotation::new(10).approx_eq(Rotation::new(12)));
    assert!(!Rotation::new(10).approx_eq(Rotation::new(13)));
    assert!(Rotation::EAST().approx_eq(Rotation::EAST()));
}

#[test]
fn required_rotation_applied_reaches_target() {
    for from in [0u16, 450, 900, 1799, 1800, 3000] {
        for to in [0u16, 100, 1800, 2000, 3599] {
            let from = Rotation::new(from);
            let to = Rotation::new(to);
            let cw = from.required_orientation_to(to, Some(RotationDirection::Clockwise));
            assert_eq!(from + cw, to);
            let ccw =
                from.required_orientation_to(to, Some(RotationDirection::CounterClockwise));
            assert_eq!(from - ccw, to);
            assert!(cw.deci_degrees() < 3600 && ccw.deci_degrees() < 3600);
            let shortest = from.required_orientation_to(to, None);
            assert_eq!(shortest, from.distance(to));
        }
    }
}

/// A grid point with integer coordinates.
#[derive(Clone, Copy, Debug, PartialEq)]
struct GridPoint {
    x: i32,
    y: i32,
}

impl OrientationPositionInterop<GridPoint> for Rotation {
    fn orientation_between_positions(
        position_a: GridPoint,
        position_b: GridPoint,
    ) -> Result<Rotation, NearlySingularConversion> {
        let dx = position_b.x - position_a.x;
        let dy = position_b.y - position_a.y;
        match (dx.signum(), dy.signum()) {
            (0, 0) => Err(NearlySingularConversion),
            (0, 1) => Ok(Rotation::NORTH()),
            (1, 0) => Ok(Rotation::EAST()),
            (0, -1) => Ok(Rotation::SOUTH()),
            (-1, 0) => Ok(Rotation::WEST()),
            (1, 1) => Ok(Rotation::NORTHEAST()),
            (1, -1) => Ok(Rotation::SOUTHEAST()),
            (-1, -1) => Ok(Rotation::SOUTHWEST()),
            _ => Ok(Rotation::NORTHWEST()),
        }
    }
}

#[test]
fn rotate_towards_position_turns_or_stays() {
    let origin = GridPoint { x: 0, y: 0 };
    let up_right = GridPoint { x: 1, y: 1 };
    let down_left = GridPoint { x: -1, y: -1 };

    let mut rotation = Rotation::NORTH();
    rotation.rotate_towards_position(origin, up_right, None);
    assert_eq!(rotation, Rotation::NORTHEAST());

    // Southwest lies half a circle away: a tie, turned clockwise.
    rotation.rotate_towards_position(origin, down_left, Some(Rotation::new(450)));
    assert_eq!(rotation, Rotation::EAST());

    // Coinciding positions leave the orientation as it is.
    rotation.rotate_towards_position(origin, origin, Some(Rotation::new(450)));
    assert_eq!(rotation, Rotation::EAST());
}

#[test]
fn rotate_towards_outcome_keeps_orientation_on_failure() {
    let mut rotation = Rotation::EAST();
    rotation.rotate_towards_outcome(Err(NearlySingularConversion), None);
    assert_eq!(rotation, Rotation::EAST());
    rotation.rotate_towards_outcome(Ok(Rotation::SOUTH()), Some(Rotation::new(300)));
    assert_eq!(rotation.deci_degrees(), 1200);
}

#[test]
fn conversions_of_a_rotation_are_itself() {
    let rotation = Rotation::new(1234);
    assert_eq!(rotation.into_rotation(), rotation);
    assert_eq!(<Rotation as Orientation>::from_rotation(rotation), rotation);
}
