//! The game engine: starting a game, applying human and automated turns,
//! conceding, restarting, and reading the state back.

use vstd::prelude::*;

use crate::game::GameError;
use crate::game::GameState;
use crate::game::PebblesAction;
use crate::game::PebblesEvent;
use crate::game::PebblesInit;
use crate::game::Player;
use crate::game::valid_config;
use crate::game::well_formed;
use crate::game::winner_matches_pile;
use crate::strategy::choose_move;
use crate::strategy::lemma_choose_move_bounds;
use crate::strategy::spec_choose_move;

verus! {

/// The state and event one automated move produces: the chosen amount leaves
/// the pile, and the automated player is recorded as the winner exactly when
/// the pile thereby empties.
pub open spec fn spec_program_turn(s: GameState, draw: u32) -> (GameState, PebblesEvent)
    recommends
        well_formed(s),
        s.pebbles_remaining >= 1,
{
    let n = spec_choose_move(s.pebbles_remaining, s.max_pebbles_per_turn, s.difficulty, draw);
    let remaining = (s.pebbles_remaining - n) as u32;
    if remaining == 0 {
        (
            (GameState { pebbles_remaining: 0, winner: Some(Player::Program), ..s }),
            PebblesEvent::Won(Player::Program),
        )
    } else {
        (
            (GameState { pebbles_remaining: remaining, ..s }),
            PebblesEvent::CounterTurn(n as u32),
        )
    }
}

/// One move of the automated player, applied to the state in place.
///
/// The pile shrinks by exactly the amount `spec_choose_move` selects from
/// the injected random `draw`; the winner becomes the automated player
/// exactly when the pile empties, and is otherwise left as it was; no other
/// field changes.
pub fn apply_program_turn(state: &mut GameState, draw: u32) -> (ev: PebblesEvent)
    requires
        well_formed(*old(state)),
        old(state).pebbles_remaining >= 1,
    ensures
        *final(state) == spec_program_turn(*old(state), draw).0,
        ev == spec_program_turn(*old(state), draw).1,
        well_formed(*final(state)),
{
    let n = choose_move(
        state.pebbles_remaining,
        state.max_pebbles_per_turn,
        state.difficulty,
        draw,
    );
    state.pebbles_remaining = state.pebbles_remaining - n;
    if state.pebbles_remaining == 0 {
        state.winner = Some(Player::Program);
        PebblesEvent::Won(Player::Program)
    } else {
        PebblesEvent::CounterTurn(n)
    }
}

/// The first player a fresh game assigns from the host's random draw: an
/// even draw puts the human first, an odd one the automated player.
pub open spec fn spec_first_player(first_draw: u32) -> Player {
    if first_draw % 2 == 0 {
        Player::User
    } else {
        Player::Program
    }
}

/// The state and optional event a fresh game starts with: a full pile, no
/// winner, a first player drawn from `first_draw`; when the automated player
/// is drawn first, its one opening move (selected from `move_draw`) is
/// already applied and reported.
pub open spec fn spec_fresh_game(init: PebblesInit, first_draw: u32, move_draw: u32) -> (
    GameState,
    Option<PebblesEvent>,
)
    recommends
        valid_config(init.pebbles_count, init.max_pebbles_per_turn),
{
    let base = GameState {
        pebbles_count: init.pebbles_count,
        max_pebbles_per_turn: init.max_pebbles_per_turn,
        pebbles_remaining: init.pebbles_count,
        difficulty: init.difficulty,
        first_player: spec_first_player(first_draw),
        winner: None,
    };
    if spec_first_player(first_draw) is Program {
        let (s, ev) = spec_program_turn(base, move_draw);
        (s, Some(ev))
    } else {
        (base, None)
    }
}

/// Start a new game from a requested configuration.
///
/// The configuration is rejected with `InvalidConfiguration` exactly when it
/// is out of range; on success the returned state and event are exactly
/// `spec_fresh_game` of the two injected random draws: full pile, no winner,
/// drawn first player, and the automated opening move already applied when
/// the automated player goes first.
pub fn initialize(init: PebblesInit, first_draw: u32, move_draw: u32) -> (r: Result<
    (GameState, Option<PebblesEvent>),
    GameError,
>)
    ensures
        r is Ok <==> valid_config(init.pebbles_count, init.max_pebbles_per_turn),
        r matches Ok(p) ==> p == spec_fresh_game(init, first_draw, move_draw),
        r matches Ok(p) ==> well_formed(p.0),
        r matches Err(e) ==> e == GameError::InvalidConfiguration,
{
    if init.pebbles_count == 0 || init.max_pebbles_per_turn == 0
        || init.max_pebbles_per_turn > init.pebbles_count {
        return Err(GameError::InvalidConfiguration);
    }
    let first_player = if first_draw % 2 == 0 {
        Player::User
    } else {
        Player::Program
    };
    let mut state = GameState {
        pebbles_count: init.pebbles_count,
        max_pebbles_per_turn: init.max_pebbles_per_turn,
        pebbles_remaining: init.pebbles_count,
        difficulty: init.difficulty,
        first_player,
        winner: None,
    };
    if let Player::Program = first_player {
        let ev = apply_program_turn(&mut state, move_draw);
        Ok((state, Some(ev)))
    } else {
        Ok((state, None))
    }
}

/// A human turn of `n` pebbles is legal when `n` lies between one and both
/// the per-turn cap and what remains of the pile.
pub open spec fn valid_turn(s: GameState, n: u32) -> bool {
    &&& 1 <= n
    &&& n <= s.max_pebbles_per_turn
    &&& n <= s.pebbles_remaining
}

/// The state and event a legal human turn produces: `n` pebbles leave the
/// pile; the human wins if that empties it, and the automated player
/// answers with one move of its own otherwise.
pub open spec fn spec_human_turn(s: GameState, n: u32, draw: u32) -> (GameState, PebblesEvent)
    recommends
        well_formed(s),
        valid_turn(s, n),
{
    let remaining = (s.pebbles_remaining - n) as u32;
    if remaining == 0 {
        (
            (GameState { pebbles_remaining: 0, winner: Some(Player::User), ..s }),
            PebblesEvent::Won(Player::User),
        )
    } else {
        spec_program_turn((GameState { pebbles_remaining: remaining, ..s }), draw)
    }
}

/// Apply a human turn of `n` pebbles to the state in place.
///
/// An illegal `n` is rejected with `InvalidTurn` and the state is left
/// exactly as it was. A legal `n` leaves the pile: the human wins when that
/// empties it, and the automated player otherwise answers with one move
/// selected from the injected random `draw`; state and event are exactly
/// `spec_human_turn`.
pub fn apply_human_turn(state: &mut GameState, n: u32, draw: u32) -> (r: Result<
    PebblesEvent,
    GameError,
>)
    requires
        well_formed(*old(state)),
    ensures
        r is Ok <==> valid_turn(*old(state), n),
        r matches Err(e) ==> e == GameError::InvalidTurn && *final(state) == *old(state),
        r matches Ok(ev) ==> *final(state) == spec_human_turn(*old(state), n, draw).0 && ev
            == spec_human_turn(*old(state), n, draw).1,
        well_formed(*final(state)),
{
    if n < 1 || n > state.max_pebbles_per_turn || n > state.pebbles_remaining {
        return Err(GameError::InvalidTurn);
    }
    state.pebbles_remaining = state.pebbles_remaining - n;
    if state.pebbles_remaining == 0 {
        state.winner = Some(Player::User);
        Ok(PebblesEvent::Won(Player::User))
    } else {
        Ok(apply_program_turn(state, draw))
    }
}

/// Concede the game on the human's behalf.
///
/// The automated player is recorded as the winner outright, whatever the
/// pile holds and whatever winner was recorded before; nothing else
/// changes.
pub fn concede(state: &mut GameState) -> (ev: PebblesEvent)
    ensures
        *final(state) == (GameState { winner: Some(Player::Program), ..*old(state) }),
        ev == PebblesEvent::Won(Player::Program),
{
    state.winner = Some(Player::Program);
    PebblesEvent::Won(Player::Program)
}

/// Replace the game in place with a freshly configured one.
///
/// The new configuration is validated exactly as `initialize` validates it;
/// on rejection the running game is left exactly as it was, and on success
/// the state is replaced wholesale by `spec_fresh_game` of the two injected
/// draws, the opening automated move (if the automated player is drawn
/// first) reported as the event.
pub fn restart(state: &mut GameState, init: PebblesInit, first_draw: u32, move_draw: u32) -> (r:
    Result<Option<PebblesEvent>, GameError>)
    ensures
        r is Ok <==> valid_config(init.pebbles_count, init.max_pebbles_per_turn),
        r matches Err(e) ==> e == GameError::InvalidConfiguration && *final(state) == *old(state),
        r matches Ok(ev) ==> *final(state) == spec_fresh_game(init, first_draw, move_draw).0 && ev
            == spec_fresh_game(init, first_draw, move_draw).1,
        r is Ok ==> well_formed(*final(state)),
{
    match initialize(init, first_draw, move_draw) {
        Ok((fresh, ev)) => {
            *state = fresh;
            Ok(ev)
        },
        Err(e) => Err(e),
    }
}

/// Process one request against the running game, mutating the state in
/// place.
///
/// A `Turn` is a human turn followed, when the pile survives it, by the
/// automated answer; `GiveUp` concedes to the automated player outright;
/// `Restart` replaces the game with a freshly configured one. The two
/// injected draws are read only where a fresh game or an automated answer
/// needs them. On any rejection the state is left exactly as it was.
pub fn handle_action(
    state: &mut GameState,
    action: PebblesAction,
    first_draw: u32,
    move_draw: u32,
) -> (r: Result<Option<PebblesEvent>, GameError>)
    requires
        well_formed(*old(state)),
    ensures
        action matches PebblesAction::Turn(n) ==> {
            &&& r is Ok <==> valid_turn(*old(state), n)
            &&& r matches Err(e) ==> e == GameError::InvalidTurn && *final(state) == *old(state)
            &&& r matches Ok(ev) ==> *final(state) == spec_human_turn(*old(state), n, move_draw).0
                && ev == Some(spec_human_turn(*old(state), n, move_draw).1)
        },
        action is GiveUp ==> {
            &&& *final(state) == (GameState { winner: Some(Player::Program), ..*old(state) })
            &&& r matches Ok(ev) && ev == Some(PebblesEvent::Won(Player::Program))
        },
        action matches PebblesAction::Restart { difficulty, pebbles_count, max_pebbles_per_turn }
            ==> {
            let init = PebblesInit { difficulty, pebbles_count, max_pebbles_per_turn };
            &&& r is Ok <==> valid_config(pebbles_count, max_pebbles_per_turn)
            &&& r matches Err(e) ==> e == GameError::InvalidConfiguration && *final(state)
                == *old(state)
            &&& r matches Ok(ev) ==> *final(state) == spec_fresh_game(
                init,
                first_draw,
                move_draw,
            ).0 && ev == spec_fresh_game(init, first_draw, move_draw).1
        },
        well_formed(*final(state)),
{
    match action {
        PebblesAction::Turn(n) => {
            match apply_human_turn(state, n, move_draw) {
                Ok(ev) => Ok(Some(ev)),
                Err(e) => Err(e),
            }
        },
        PebblesAction::GiveUp => Ok(Some(concede(state))),
        PebblesAction::Restart { difficulty, pebbles_count, max_pebbles_per_turn } => {
            restart(
                state,
                PebblesInit { difficulty, pebbles_count, max_pebbles_per_turn },
                first_draw,
                move_draw,
            )
        },
    }
}

/// Law: a fresh game starts with the pile equal to the configured count
/// whenever the human is drawn first; when the automated player is drawn
/// first its one opening move shrinks the pile, and that move can empty the
/// pile — deciding the game at once — only when the whole pile fits in a
/// single turn.
pub proof fn lemma_fresh_game_pile(init: PebblesInit, first_draw: u32, move_draw: u32)
    requires
        valid_config(init.pebbles_count, init.max_pebbles_per_turn),
    ensures
        spec_fresh_game(init, first_draw, move_draw).0.first_player is User
            ==> spec_fresh_game(init, first_draw, move_draw).0.pebbles_remaining
            == init.pebbles_count,
        init.pebbles_count > init.max_pebbles_per_turn ==> spec_fresh_game(
            init,
            first_draw,
            move_draw,
        ).0.pebbles_remaining > 0 && spec_fresh_game(init, first_draw, move_draw).0.winner is None,
        spec_fresh_game(init, first_draw, move_draw).0.pebbles_remaining == 0
            ==> init.pebbles_count <= init.max_pebbles_per_turn,
{
    if spec_first_player(first_draw) is Program {
        lemma_choose_move_bounds(
            init.pebbles_count,
            init.max_pebbles_per_turn,
            init.difficulty,
            move_draw,
        );
    }
}

/// Law: a fresh game records a winner exactly when its pile is already
/// empty — that is, only when the automated player was drawn first and its
/// opening move took the whole pile.
pub proof fn lemma_fresh_game_winner(init: PebblesInit, first_draw: u32, move_draw: u32)
    requires
        valid_config(init.pebbles_count, init.max_pebbles_per_turn),
    ensures
        winner_matches_pile(spec_fresh_game(init, first_draw, move_draw).0),
{
    if spec_first_player(first_draw) is Program {
        lemma_choose_move_bounds(
            init.pebbles_count,
            init.max_pebbles_per_turn,
            init.difficulty,
            move_draw,
        );
    }
}

/// Law: an automated move keeps the winner recorded exactly when the pile
/// is empty, provided that held of the state it moves on.
pub proof fn lemma_program_turn_winner(s: GameState, draw: u32)
    requires
        well_formed(s),
        s.pebbles_remaining >= 1,
        winner_matches_pile(s),
    ensures
        winner_matches_pile(spec_program_turn(s, draw).0),
{
    lemma_choose_move_bounds(s.pebbles_remaining, s.max_pebbles_per_turn, s.difficulty, draw);
}

/// Law: a legal human turn, together with the automated answer it may
/// provoke, keeps the winner recorded exactly when the pile is empty,
/// provided that held of the state it moves on.
pub proof fn lemma_human_turn_winner(s: GameState, n: u32, draw: u32)
    requires
        well_formed(s),
        winner_matches_pile(s),
        valid_turn(s, n),
    ensures
        winner_matches_pile(spec_human_turn(s, n, draw).0),
{
    let remaining = (s.pebbles_remaining - n) as u32;
    if remaining != 0 {
        lemma_program_turn_winner((GameState { pebbles_remaining: remaining, ..s }), draw);
    }
}

/// Law: once a winner is recorded with the pile empty, no human turn is
/// legal, so nothing mutates the pile until a restart replaces the game.
/// (A concession records a winner over a non-empty pile and deliberately
/// escapes this.)
pub proof fn lemma_finished_game_rejects_turns(s: GameState, n: u32)
    requires
        winner_matches_pile(s),
        s.winner is Some,
    ensures
        !valid_turn(s, n),
{
}

/// A read-only snapshot of the whole game state.
pub fn get_state(state: &GameState) -> (snapshot: GameState)
    ensures
        snapshot == *state,
{
    *state
}

} // verus!
