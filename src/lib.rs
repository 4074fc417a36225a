//! A falling-block arcade game: a block falls under gravity, jumps on request
//! and must stay clear of scrolling pipes.
//!
//! All lengths, positions and speeds are whole numbers of tenths of a logical
//! unit, so that the simulation runs on exact integers.

pub mod geometry;
pub mod game;
