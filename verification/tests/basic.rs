use pebbles_game::engine::apply_human_turn;
use pebbles_game::engine::get_state;
use pebbles_game::engine::handle_action;
use pebbles_game::engine::initialize;
use pebbles_game::game::DifficultyLevel;
use pebbles_game::game::GameState;
use pebbles_game::game::PebblesAction;
use pebbles_game::game::PebblesEvent;
use pebbles_game::game::PebblesInit;
use pebbles_game::game::Player;

// An even first draw puts the human first, so a freshly started game still
// holds its whole pile when these tests begin.
const FIRST_DRAW_USER: u32 = 0;
// A fixed draw for every automated move keeps the runs deterministic; under
// the easy policy with a cap of 2 it selects 7 % 2 + 1 == 2 pebbles.
const MOVE_DRAW: u32 = 7;

fn init_program(init_msg: PebblesInit) -> GameState {
    let result = initialize(init_msg, FIRST_DRAW_USER, MOVE_DRAW);
    let (state, _event) = result.expect("Invalid state.");
    state
}

#[test]
fn test_init() {
    let init_state = init_program(PebblesInit {
        difficulty: DifficultyLevel::Easy,
        pebbles_count: 15,
        max_pebbles_per_turn: 2,
    });

    assert_eq!(init_state.pebbles_count, 15);
    assert_eq!(init_state.max_pebbles_per_turn, 2);
    assert_eq!(init_state.difficulty, DifficultyLevel::Easy);
    assert_eq!(init_state.pebbles_remaining, 15);
}

#[test]
fn test_turn() {
    let max_pebbles_per_turn = 2;
    let mut user_turn = 1;

    let init_state = init_program(PebblesInit {
        difficulty: DifficultyLevel::Easy,
        pebbles_count: 15,
        max_pebbles_per_turn,
    });
    let mut game = init_state;

    let result = apply_human_turn(&mut game, user_turn + max_pebbles_per_turn, MOVE_DRAW);
    assert!(result.is_err()); // should fail

    let result = apply_human_turn(&mut game, user_turn, MOVE_DRAW);
    assert!(result.is_ok()); // should pass

    // Check the event
    let event = result.expect("Failed to decode event");

    // extract the turn from the event, it is a program turn value.
    let program_turn = match event {
        PebblesEvent::CounterTurn(n) => n,
        _ => panic!("Unexpected event"),
    };

    assert_eq!(event, PebblesEvent::CounterTurn(program_turn));

    // Check the state
    let mut state: GameState = get_state(&game);

    assert!(state.pebbles_remaining > 0);
    assert_eq!(state.first_player, init_state.first_player);

    let mut winner = Player::Program;

    while state.pebbles_remaining > 0 {
        if state.pebbles_remaining <= max_pebbles_per_turn {
            // all pebbles are taken by the user for the last turn and the user wins.
            user_turn = state.pebbles_remaining;
            winner = Player::User;
        }
        let result = apply_human_turn(&mut game, user_turn, MOVE_DRAW);
        assert!(result.is_ok());
        state = get_state(&game);
    }

    // Check the winner
    assert_eq!(state.winner.expect("No Winner"), winner);
}

#[test]
fn test_give_up() {
    let init_state = init_program(PebblesInit {
        difficulty: DifficultyLevel::Easy,
        pebbles_count: 15,
        max_pebbles_per_turn: 2,
    });
    let mut game = init_state;

    handle_action(&mut game, PebblesAction::GiveUp, FIRST_DRAW_USER, MOVE_DRAW)
        .expect("Invalid state.");
    let state: GameState = get_state(&game);
    assert_eq!(state.winner.expect("No Winner"), Player::Program);
}

#[test]
fn test_restart() {
    let init_state = init_program(PebblesInit {
        difficulty: DifficultyLevel::Easy,
        pebbles_count: 15,
        max_pebbles_per_turn: 2,
    });
    let mut game = init_state;

    handle_action(&mut game, PebblesAction::GiveUp, FIRST_DRAW_USER, MOVE_DRAW)
        .expect("Invalid state.");
    let state: GameState = get_state(&game);
    assert_eq!(state.winner.expect("No Winner"), Player::Program);

    handle_action(
        &mut game,
        PebblesAction::Restart {
            difficulty: DifficultyLevel::Hard,
            pebbles_count: 35,
            max_pebbles_per_turn: 5,
        },
        FIRST_DRAW_USER,
        MOVE_DRAW,
    )
    .expect("Invalid state.");
    let state: GameState = get_state(&game);
    assert_eq!(state.winner, None);
    assert_eq!(state.max_pebbles_per_turn, 5);
    assert_eq!(state.difficulty, DifficultyLevel::Hard);
    assert_eq!(state.pebbles_count, 35);
}
