//! A two-player, turn-based pebble game (a subtraction game): a human and an
//! automated opponent alternately remove between one and a fixed maximum
//! number of pebbles from a pile, and whoever removes the last pebble wins.
//!
//! The crate holds the verified core: the game state machine (validation of
//! actions, mutation of state, win detection) and the automated player's
//! move selection under two difficulty policies. Randomness is injected: the
//! host draws entropy and hands each operation the draws it may need as plain
//! `u32` values, so every function here is deterministic in its arguments and
//! fully specified by its contract.

pub mod engine;
pub mod game;
pub mod strategy;
