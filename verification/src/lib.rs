//! Game rules for a three-team arena: which team beats which, how a unit
//! changes team, and which way the movement keys push the player.

pub mod bodies;
pub mod input;
pub mod movement;
pub mod team;
pub mod unit;
