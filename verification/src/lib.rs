//! A three-state "rock-paper-scissors" lattice automaton with an animated
//! color pipeline.
//!
//! The crate holds the verified core of the animation: the per-cell
//! transition rule, the double-buffered grid engine that advances one
//! generation per tick, the fixed palette store, the random-walk color
//! blender, and the decision of when palette data must be pushed to the
//! device. Window, surface, and device plumbing live outside the library
//! and only hand plain values in and out.

pub mod blend;
pub mod cell;
pub mod color;
pub mod grid;
pub mod palette;
pub(crate) mod rng;

pub use cell::Cell;
