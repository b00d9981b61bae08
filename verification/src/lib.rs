//! Playfield construction and coordinate mapping for a small 2D
//! space-invaders style game board.
//!
//! The library computes, from integer layout parameters, the exact
//! positions of a tank, a row of cover blocks and a grid of aliens,
//! together with the board's axis-aligned bounds, and maps pointer
//! positions from window space into board-local coordinates.
//!
//! All geometry is carried by exact rational numbers ([`rat::Rat`]),
//! so every position formula is stated and proved exactly.

pub mod board;
pub mod board_assets;
pub mod board_options;
pub mod bounds;
pub mod builder;
pub mod rat;
