//! Gameplay simulation core of a small arena action game: entity attributes,
//! the enemy archetype table, axis-aligned collision, the repeating spawn
//! timer, movement and aiming.
//!
//! Lengths are integers in micro-units (a millionth of a world unit) and
//! durations are integers in microseconds, so that a speed in world units per
//! second times a duration in microseconds is a displacement in micro-units
//! with no rounding.
pub mod aim;
pub mod archetype;
pub mod entity;
pub mod geometry;
pub mod movement;
pub mod simulation;
pub mod skills;
pub mod spawn;
