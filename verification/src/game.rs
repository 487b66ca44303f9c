//! The data model of the game: configuration, state, actions, events and
//! errors, together with the spec-level predicates that the engine's
//! contracts are stated over.

use vstd::prelude::*;

verus! {

/// One of the two participants.
#[derive(Clone, Copy, PartialEq, Eq, Structural, Debug)]
pub enum Player {
    User,
    Program,
}

/// The automated player's move-selection policy.
#[derive(Clone, Copy, PartialEq, Eq, Structural, Debug)]
pub enum DifficultyLevel {
    Easy,
    Hard,
}

/// Why a request was rejected. The game state is left untouched whenever
/// one of these is returned.
#[derive(Clone, Copy, PartialEq, Eq, Structural, Debug)]
pub enum GameError {
    /// The configuration of a new game is out of range.
    InvalidConfiguration,
    /// A human turn asked for an amount outside the permitted range.
    InvalidTurn,
}

/// The configuration a new game is started with.
#[derive(Clone, Copy, PartialEq, Eq, Debug)]
pub struct PebblesInit {
    pub difficulty: DifficultyLevel,
    pub pebbles_count: u32,
    pub max_pebbles_per_turn: u32,
}

/// A request made against a running game.
#[derive(Clone, Copy, PartialEq, Eq, Debug)]
pub enum PebblesAction {
    /// The human removes the given number of pebbles.
    Turn(u32),
    /// The human concedes; the automated player wins at once.
    GiveUp,
    /// Replace the game wholesale with a freshly configured one.
    Restart {
        difficulty: DifficultyLevel,
        pebbles_count: u32,
        max_pebbles_per_turn: u32,
    },
}

/// What an accepted action reports back.
#[derive(Clone, Copy, PartialEq, Eq, Debug)]
pub enum PebblesEvent {
    /// The automated player removed the given number of pebbles.
    CounterTurn(u32),
    /// The game ended with the given winner.
    Won(Player),
}

/// The whole state of one game.
#[derive(Clone, Copy, PartialEq, Eq, Debug)]
pub struct GameState {
    pub pebbles_count: u32,
    pub max_pebbles_per_turn: u32,
    pub pebbles_remaining: u32,
    pub difficulty: DifficultyLevel,
    pub first_player: Player,
    pub winner: Option<Player>,
}

/// A configuration is acceptable when the pile is non-empty and the per-turn
/// cap lies between one pebble and the whole pile.
pub open spec fn valid_config(pebbles_count: u32, max_pebbles_per_turn: u32) -> bool {
    &&& pebbles_count > 0
    &&& 1 <= max_pebbles_per_turn
    &&& max_pebbles_per_turn <= pebbles_count
}

/// The structural invariant of every game state the engine hands out: the
/// configuration is acceptable and the pile never exceeds its starting size.
pub open spec fn well_formed(s: GameState) -> bool {
    &&& valid_config(s.pebbles_count, s.max_pebbles_per_turn)
    &&& s.pebbles_remaining <= s.pebbles_count
}

/// A winner is recorded exactly when the pile is empty. This holds of every
/// state produced by starting a game, restarting one, or taking turns; a
/// concession breaks it deliberately, recording a winner over a non-empty
/// pile.
pub open spec fn winner_matches_pile(s: GameState) -> bool {
    s.winner is Some <==> s.pebbles_remaining == 0
}

} // verus!
