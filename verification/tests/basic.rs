use pebbles_game::engine::GameError;
use pebbles_game::game::DifficultyLevel;
use pebbles_game::game::GameConfig;
use pebbles_game::game::Player;
use pebbles_game::session::Session;

/// The draw the host hands the engine in these tests: a fixed value, so
/// every run takes the same path (an even draw puts the Program first).
const DRAW: u32 = 2;

fn init_game(
    difficulty: DifficultyLevel,
    pebbles_count: u32,
    max_pebbles_per_turn: u32,
) -> Session {
    let mut session = Session::new();
    let config = GameConfig {
        difficulty,
        pebbles_count,
        max_pebbles_per_turn,
    };
    session.init(config, DRAW, DRAW).unwrap();
    session
}

#[test]
fn game_flow() {
    let mut game = init_game(DifficultyLevel::Easy, 15, 2);

    // Check initial state
    let state = game.query_state().unwrap();
    assert_eq!(state.pebbles_count, 15);
    assert_eq!(state.max_pebbles_per_turn, 2);
    assert!(state.pebbles_remaining <= 15 && state.pebbles_remaining >= 13);
    assert!(matches!(state.difficulty, DifficultyLevel::Easy));
    assert!(state.winner.is_none());

    // Player's turn
    let _res = game.turn(1, DRAW);

    // Check if game is over
    let state = game.query_state().unwrap();
    if state.winner.is_some() {
        assert!(matches!(state.winner, Some(Player::Program)));
    } else {
        // Continue game until finished
        loop {
            let state = game.query_state().unwrap();
            if state.winner.is_some() {
                break;
            }
            let pebbles_to_remove =
                std::cmp::min(state.pebbles_remaining, state.max_pebbles_per_turn);
            let _res = game.turn(pebbles_to_remove, DRAW);
        }
    }

    // Check final state
    let final_state = game.query_state().unwrap();
    assert!(final_state.winner.is_some());
    assert_eq!(final_state.pebbles_remaining, 0);
}

#[test]
fn difficulty_levels() {
    // Easy mode
    let easy_game = init_game(DifficultyLevel::Easy, 15, 2);
    let easy_state = easy_game.query_state().unwrap();
    assert!(matches!(easy_state.difficulty, DifficultyLevel::Easy));

    // Hard mode
    let hard_game = init_game(DifficultyLevel::Hard, 15, 2);
    let hard_state = hard_game.query_state().unwrap();
    assert!(matches!(hard_state.difficulty, DifficultyLevel::Hard));
}

#[test]
fn invalid_inputs() {
    let mut session = Session::new();

    // Invalid initialization parameters
    let invalid_init = GameConfig {
        difficulty: DifficultyLevel::Easy,
        pebbles_count: 0,
        max_pebbles_per_turn: 0,
    };
    let res = session.init(invalid_init, DRAW, DRAW);
    assert_eq!(res, Err(GameError::InvalidConfig));

    // Valid initialization
    let mut game = init_game(DifficultyLevel::Easy, 15, 2);

    // Invalid turn operation
    let res = game.turn(3, DRAW);
    assert_eq!(res, Err(GameError::InvalidMove));
}

#[test]
fn give_up_and_restart() {
    let mut game = init_game(DifficultyLevel::Easy, 15, 2);

    // Player's surrender
    let _res = game.give_up();

    let state = game.query_state().unwrap();
    assert!(matches!(state.winner, Some(Player::Program)));

    // Restart game
    let config = GameConfig {
        difficulty: DifficultyLevel::Hard,
        pebbles_count: 20,
        max_pebbles_per_turn: 3,
    };
    let _res = game.restart(config, DRAW, DRAW);

    let new_state = game.query_state().unwrap();
    assert_eq!(new_state.pebbles_count, 20);
    assert_eq!(new_state.max_pebbles_per_turn, 3);
    assert!(matches!(new_state.difficulty, DifficultyLevel::Hard));
    assert!(new_state.winner.is_none());
}
