//! A fixed-tick duel between two teams: players that move along one axis,
//! guns and lasers that fire bullets, collision resolution, and the round
//! lifecycle from play to result to termination.

pub mod geometry;
pub mod input;
pub mod render;
pub mod actor;
mod chance;
pub mod weapon;
pub mod collision;
pub mod round;
