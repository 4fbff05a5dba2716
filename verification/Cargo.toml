[package]
name = "leafwing_2d"
version = "0.1.0"
edition = "2021"
publish = false

[dependencies]
bevy_ecs = "=0.7.0"
bevy_math = "=0.7.0"
bevy_transform = "=0.7.0"
derive_more = "=0.99.20"
# Not used by any code: bevy 0.7's derive macros need `syn` 1 with its "full" feature, which
# no other crate of this build enables; pin-project's macro crate does, so that bevy builds.
pin-project = "=1.0.12"
