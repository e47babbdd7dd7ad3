//! A verified rules engine for a two-player pebble-counting game.
//!
//! Two sides, the built-in `Program` and the human `User`, alternately remove
//! between 1 and a configured maximum of pebbles from a shared pile; whoever
//! removes the last pebble wins.  The crate owns game initialization, turn
//! validation, the Program's move selection under two difficulty policies,
//! win detection, concession, and restart.  Entropy is injected: every
//! operation that needs a random draw takes it as a plain `u32` argument, so
//! the engine itself is deterministic and fully verified.

pub mod engine;
pub mod game;
pub mod laws;
pub mod session;
