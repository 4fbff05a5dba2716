# leafwing_2d orientations

Discrete orientations in the plane, verified with Verus.

- `src/orientation/rotation.rs`: `Rotation`, a measurement in tenths of a degree that is kept
  normalized, below a full circle (3600), with its arithmetic and the spec functions that describe
  distances, turning directions and turns.
- `src/orientation/rotation_direction.rs`: `RotationDirection`, clockwise or counterclockwise.
- `src/orientation/orientation_trait.rs`: the `Orientation` trait, whose turning rules are
  worked out on the rotations that orientations convert into; `Rotation` implements it.
- `src/orientation/orientation_position_trait.rs`: turning towards a position.
- `src/orientation/laws.rs`: proved laws relating the operations.
- `app/`: the floating-point side: unit-vector `Direction`s, degrees and radians, and
  conversions to and from bevy's `Vec2`, `Quat` and transforms.
