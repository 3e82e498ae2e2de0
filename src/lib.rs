//! Gameplay rules of a 2D space shooter: the weapon cooldown gate that decides
//! when the player's ship fires, and the arena boundary test that decides which
//! shots leave play.
pub mod fire_control;
pub mod arena;
