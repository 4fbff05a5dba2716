//! Direction and rotation for spinning around in 2 dimensions

pub use orientation_position_trait::OrientationPositionInterop;
pub use orientation_trait::Orientation;
pub use rotation::Rotation;
pub use rotation_direction::RotationDirection;

pub mod laws;
mod orientation_position_trait;
mod orientation_trait;
mod rotation;
mod rotation_direction;
