//! Scene logic of a small narrative game, held as two finite-state machines:
//! the turn-based combat encounter and the proximity-triggered dialogue of an
//! overworld character. Every function comes with a contract over a
//! mathematical view of the game state, and all are total on their inputs
//! but the two that take an index into the pool of dialogue lines
//! (`scenes::eilish::dialogue_line` and `scenes::eilish::update_with`), which
//! ask for an index below the size of the pool. The front end polls the
//! keyboard, hands in plain values and carries out the draw plans.
//!
//! All fractional quantities (lengths, opacities, scales, colour channels) are
//! held in hundredths of their unit.

mod chance;
pub mod combat;
pub mod counters;
pub mod defs;
pub mod game_state;
pub mod geometry;
pub mod render;
pub mod scenes;
pub mod text;
