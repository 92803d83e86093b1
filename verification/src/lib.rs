//! Core logic of a 2D top-down action game: character movement
//! (input aggregation, acceleration/damping integration), camera
//! attachment, room-based level selection, and a minimal projectile
//! subsystem (spawn on fire, despawn on wall collision).
//!
//! All geometry and kinematics use fixed-point arithmetic: a value of
//! [`vec2::SCALE`] fixed units stands for 1.0 world units. The engine,
//! physics and level-format collaborators are outside this crate; it
//! consumes their state as plain values and hands plain values back.

pub mod attack;
pub mod character_controller;
pub mod helpers;
pub mod mob;
pub mod player;
pub mod vec2;
