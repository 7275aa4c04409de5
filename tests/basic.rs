use pebbles_game::game::{give_up, handle, init, state, user_turn};
use pebbles_game::strategy::program_turn;
use pebbles_game::types::{
    DifficultyLevel, GameState, PebblesAction, PebblesError, PebblesEvent, PebblesInit, Player,
};

const DRAW: u32 = 42;

fn start(difficulty: DifficultyLevel, pebbles_count: u32, max_pebbles_per_turn: u32) -> GameState {
    let config = PebblesInit { difficulty, pebbles_count, max_pebbles_per_turn };
    let (game, _event) = init(&config, DRAW, DRAW).expect("valid configuration");
    game
}

#[test]
fn test_init() {
    let game = start(DifficultyLevel::Easy, 15, 2);
    let state: GameState = state(&game);
    assert_eq!(state.pebbles_count, 15);
    assert_eq!(state.max_pebbles_per_turn, 2);
    assert!(state.pebbles_remaining <= 15 && state.pebbles_remaining >= 13);
    assert_eq!(state.difficulty, DifficultyLevel::Easy);
    assert!(state.winner.is_none());
}

#[test]
fn test_user_turn_easy() {
    let mut game = start(DifficultyLevel::Easy, 15, 2);
    handle(&mut game, PebblesAction::Turn(1), DRAW, DRAW).expect("legal turn");
    let state: GameState = state(&game);
    assert!(state.pebbles_remaining <= 14 && state.pebbles_remaining >= 12);
    assert!(state.winner.is_none());
}

#[test]
fn test_hard_mode_strategy() {
    let mut game = start(DifficultyLevel::Hard, 15, 2);
    handle(&mut game, PebblesAction::Turn(2), DRAW, DRAW).expect("legal turn");
    let state: GameState = state(&game);
    assert_eq!(state.pebbles_remaining, 12);
    assert!(state.winner.is_none());
}

#[test]
fn test_user_wins() {
    let mut game = start(DifficultyLevel::Easy, 4, 2);
    handle(&mut game, PebblesAction::Turn(1), DRAW, DRAW).expect("legal turn");
    handle(&mut game, PebblesAction::Turn(2), DRAW, DRAW).expect("legal turn");
    let state: GameState = state(&game);
    assert_eq!(state.pebbles_remaining, 0);
    assert_eq!(state.pebbles_count, 4);
    assert_eq!(state.max_pebbles_per_turn, 2);
    assert_eq!(state.winner, Some(Player::User));
}

#[test]
fn test_program_wins() {
    let mut game = start(DifficultyLevel::Hard, 4, 3);
    handle(&mut game, PebblesAction::Turn(1), DRAW, DRAW).expect("legal turn");
    let state: GameState = state(&game);
    assert_eq!(state.pebbles_remaining, 0);
    assert_eq!(state.winner, Some(Player::Program));
}

#[test]
fn test_give_up() {
    let mut game = start(DifficultyLevel::Easy, 10, 3);
    handle(&mut game, PebblesAction::GiveUp, DRAW, DRAW).expect("running game");
    let state: GameState = state(&game);
    assert_eq!(state.winner, Some(Player::Program));
}

#[test]
fn test_restart() {
    let mut game = start(DifficultyLevel::Hard, 4, 3);
    handle(&mut game, PebblesAction::Turn(1), DRAW, DRAW).expect("legal turn");
    let state_before: GameState = state(&game);
    assert_eq!(state_before.pebbles_remaining, 0);
    assert_eq!(state_before.winner, Some(Player::Program));

    let restart = PebblesAction::Restart {
        difficulty: DifficultyLevel::Easy,
        pebbles_count: 6,
        max_pebbles_per_turn: 2,
    };
    handle(&mut game, restart, DRAW, DRAW).expect("valid configuration");
    let state: GameState = state(&game);
    assert_eq!(state.pebbles_count, 6);
    assert_eq!(state.max_pebbles_per_turn, 2);
    assert_eq!(state.winner, None);
}

fn config(pebbles_count: u32, max_pebbles_per_turn: u32) -> PebblesInit {
    PebblesInit { difficulty: DifficultyLevel::Easy, pebbles_count, max_pebbles_per_turn }
}

#[test]
fn invalid_configurations_are_refused() {
    assert_eq!(init(&config(0, 0), 0, 0), Err(PebblesError::ZeroPebbles));
    assert_eq!(init(&config(0, 3), 0, 0), Err(PebblesError::ZeroPebbles));
    assert_eq!(init(&config(5, 0), 0, 0), Err(PebblesError::ZeroMaxPerTurn));
    assert_eq!(init(&config(5, 6), 0, 0), Err(PebblesError::MaxExceedsCount));
    assert!(init(&config(5, 5), 0, 0).is_ok());
}

#[test]
fn even_draw_lets_the_user_start() {
    let (game, event) = init(&config(7, 3), 10, 1).unwrap();
    assert_eq!(game.first_player, Player::User);
    assert_eq!(game.pebbles_remaining, 7);
    assert_eq!(event, None);
}

#[test]
fn odd_draw_lets_the_program_open() {
    // Easy, cap 3: draw 7 gives 7 % 3 + 1 = 2.
    let (game, event) = init(&config(7, 3), 1, 7).unwrap();
    assert_eq!(game.first_player, Player::Program);
    assert_eq!(game.pebbles_remaining, 5);
    assert_eq!(game.winner, None);
    assert_eq!(event, Some(PebblesEvent::CounterTurn(2)));
}

#[test]
fn program_opening_can_win_a_one_pebble_game() {
    let (game, event) = init(&config(1, 1), 3, 9).unwrap();
    assert_eq!(game.pebbles_remaining, 0);
    assert_eq!(game.winner, Some(Player::Program));
    assert_eq!(event, Some(PebblesEvent::Won(Player::Program)));
}

#[test]
fn hard_answers_leave_a_multiple_of_three() {
    let mut game = start(DifficultyLevel::Hard, 15, 2);
    assert_eq!(user_turn(&mut game, 2, 0), Ok(PebblesEvent::CounterTurn(1)));
    assert_eq!(game.pebbles_remaining, 12);

    let mut game = start(DifficultyLevel::Hard, 15, 2);
    assert_eq!(user_turn(&mut game, 1, 0), Ok(PebblesEvent::CounterTurn(2)));
    assert_eq!(game.pebbles_remaining, 12);
}

#[test]
fn hard_concedes_one_from_a_losing_pool() {
    // 9 - 1 = 8 is a multiple of 4: the program can only remove one.
    let mut game = start(DifficultyLevel::Hard, 9, 3);
    assert_eq!(user_turn(&mut game, 1, 0), Ok(PebblesEvent::CounterTurn(1)));
    assert_eq!(game.pebbles_remaining, 7);
}

#[test]
fn hard_move_with_the_largest_maximum() {
    let game = start(DifficultyLevel::Hard, u32::MAX, u32::MAX);
    assert_eq!(program_turn(&game, 0), u32::MAX);
}

#[test]
fn easy_moves_are_legal_for_many_draws() {
    let mut x: u32 = 12345;
    for _ in 0..1000 {
        x = x.wrapping_mul(1103515245).wrapping_add(12345);
        for (max, remaining) in [(2u32, 15u32), (5, 3), (3, 1), (1, 9)] {
            let game = GameState {
                pebbles_count: 20,
                max_pebbles_per_turn: max,
                pebbles_remaining: remaining,
                difficulty: DifficultyLevel::Easy,
                first_player: Player::User,
                winner: None,
            };
            let n = program_turn(&game, x);
            assert!(n >= 1 && n <= max.min(remaining));
        }
    }
}

#[test]
fn easy_move_exact_value() {
    let game = GameState {
        pebbles_count: 20,
        max_pebbles_per_turn: 5,
        pebbles_remaining: 3,
        difficulty: DifficultyLevel::Easy,
        first_player: Player::User,
        winner: None,
    };
    // The cap is min(5, 3) = 3; 10 % 3 + 1 = 2.
    assert_eq!(program_turn(&game, 10), 2);
}

#[test]
fn end_to_end_user_win() {
    let mut game = start(DifficultyLevel::Easy, 4, 2);
    assert_eq!(game.first_player, Player::User);
    // Draw 42: cap min(2, 3) = 2, 42 % 2 + 1 = 1.
    assert_eq!(handle(&mut game, PebblesAction::Turn(1), 0, DRAW), Ok(Some(PebblesEvent::CounterTurn(1))));
    assert_eq!(game.pebbles_remaining, 2);
    assert_eq!(handle(&mut game, PebblesAction::Turn(2), 0, DRAW), Ok(Some(PebblesEvent::Won(Player::User))));
    assert_eq!(game.pebbles_remaining, 0);
    assert_eq!(game.winner, Some(Player::User));
}

#[test]
fn illegal_turns_are_refused_without_change() {
    let mut game = start(DifficultyLevel::Easy, 4, 2);
    let before = game;
    assert_eq!(user_turn(&mut game, 0, 0), Err(PebblesError::ZeroCount));
    assert_eq!(user_turn(&mut game, 3, 0), Err(PebblesError::ExceedsMaxPerTurn));
    assert_eq!(game, before);

    game.pebbles_remaining = 1;
    let before = game;
    assert_eq!(user_turn(&mut game, 2, 0), Err(PebblesError::ExceedsRemaining));
    assert_eq!(game, before);
}

#[test]
fn finished_game_refuses_turns_and_concessions() {
    let mut game = start(DifficultyLevel::Easy, 10, 3);
    assert_eq!(give_up(&mut game), Ok(PebblesEvent::Won(Player::Program)));
    assert_eq!(game.pebbles_remaining, 10);
    let before = game;
    assert_eq!(give_up(&mut game), Err(PebblesError::GameOver));
    assert_eq!(user_turn(&mut game, 1, 0), Err(PebblesError::GameOver));
    assert_eq!(handle(&mut game, PebblesAction::Turn(1), 0, 0), Err(PebblesError::GameOver));
    assert_eq!(handle(&mut game, PebblesAction::GiveUp, 0, 0), Err(PebblesError::GameOver));
    assert_eq!(game, before);
    assert_eq!(game.winner, Some(Player::Program));
}

#[test]
fn refused_restart_keeps_the_game() {
    let mut game = start(DifficultyLevel::Easy, 10, 3);
    let before = game;
    let restart = PebblesAction::Restart { difficulty: DifficultyLevel::Hard, pebbles_count: 2, max_pebbles_per_turn: 3 };
    assert_eq!(handle(&mut game, restart, 0, 0), Err(PebblesError::MaxExceedsCount));
    assert_eq!(game, before);
}

#[test]
fn restart_with_program_opening() {
    let mut game = start(DifficultyLevel::Easy, 10, 3);
    let restart = PebblesAction::Restart { difficulty: DifficultyLevel::Hard, pebbles_count: 6, max_pebbles_per_turn: 2 };
    // Odd first draw: the program opens; 6 % 3 == 0, so it removes one.
    assert_eq!(handle(&mut game, restart, 1, 0), Ok(Some(PebblesEvent::CounterTurn(1))));
    assert_eq!(game.pebbles_count, 6);
    assert_eq!(game.pebbles_remaining, 5);
    assert_eq!(game.first_player, Player::Program);
    assert_eq!(game.difficulty, DifficultyLevel::Hard);
    assert_eq!(game.winner, None);
}
