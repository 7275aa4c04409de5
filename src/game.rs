use vstd::prelude::*;
use crate::strategy::{program_move, program_turn};
use crate::types::{
    DifficultyLevel, GameState, PebblesAction, PebblesError, PebblesEvent, PebblesInit, Player,
};

verus! {

/// The party that a draw of the randomness source selects to move first.
pub open spec fn first_player_of(draw: u32) -> Player {
    if draw % 2 == 0 { Player::User } else { Player::Program }
}

/// The error that refuses a configuration, if any.
pub open spec fn config_error(config: PebblesInit) -> Option<PebblesError> {
    if config.pebbles_count == 0 {
        Some(PebblesError::ZeroPebbles)
    } else if config.max_pebbles_per_turn == 0 {
        Some(PebblesError::ZeroMaxPerTurn)
    } else if config.max_pebbles_per_turn > config.pebbles_count {
        Some(PebblesError::MaxExceedsCount)
    } else {
        None
    }
}

/// A game under `config` before anyone has moved.
pub open spec fn fresh_state(config: PebblesInit, first: Player) -> GameState {
    GameState {
        pebbles_count: config.pebbles_count,
        max_pebbles_per_turn: config.max_pebbles_per_turn,
        pebbles_remaining: config.pebbles_count,
        difficulty: config.difficulty,
        first_player: first,
        winner: None,
    }
}

/// The program's turn on `s`: the state after it and the event it reports.
pub open spec fn program_reply(s: GameState, draw: u32) -> (GameState, PebblesEvent) {
    let n = program_move(s, draw);
    let left = s.pebbles_remaining - n;
    if left == 0 {
        (GameState { pebbles_remaining: 0, winner: Some(Player::Program), ..s }, PebblesEvent::Won(Player::Program))
    } else {
        (GameState { pebbles_remaining: left as u32, ..s }, PebblesEvent::CounterTurn(n as u32))
    }
}

/// Starting a game: the first player is drawn with `first_draw`; where it is
/// the program, it moves at once with `move_draw`.
pub open spec fn start_outcome(config: PebblesInit, first_draw: u32, move_draw: u32) -> Result<
    (GameState, Option<PebblesEvent>),
    PebblesError,
> {
    match config_error(config) {
        Some(e) => Err(e),
        None => {
            let s = fresh_state(config, first_player_of(first_draw));
            if s.first_player == Player::User {
                Ok((s, None))
            } else {
                let (t, ev) = program_reply(s, move_draw);
                Ok((t, Some(ev)))
            }
        },
    }
}

/// The error that refuses a user's turn of `count` pebbles, if any.
pub open spec fn turn_error(s: GameState, count: u32) -> Option<PebblesError> {
    if s.winner is Some {
        Some(PebblesError::GameOver)
    } else if count == 0 {
        Some(PebblesError::ZeroCount)
    } else if count > s.max_pebbles_per_turn {
        Some(PebblesError::ExceedsMaxPerTurn)
    } else if count > s.pebbles_remaining {
        Some(PebblesError::ExceedsRemaining)
    } else {
        None
    }
}

/// A user's turn of `count` pebbles, answered by the program with `draw`
/// unless the user took the last pebble.
pub open spec fn turn_outcome(s: GameState, count: u32, draw: u32) -> (GameState, Result<PebblesEvent, PebblesError>) {
    match turn_error(s, count) {
        Some(e) => (s, Err(e)),
        None => {
            let left = (s.pebbles_remaining - count) as u32;
            let s1 = GameState { pebbles_remaining: left, ..s };
            if left == 0 {
                (GameState { winner: Some(Player::User), ..s1 }, Ok(PebblesEvent::Won(Player::User)))
            } else {
                let (t, ev) = program_reply(s1, draw);
                (t, Ok(ev))
            }
        },
    }
}

/// The user conceding: the program wins, whatever is left in the pool.
pub open spec fn give_up_outcome(s: GameState) -> (GameState, Result<PebblesEvent, PebblesError>) {
    if s.winner is Some {
        (s, Err(PebblesError::GameOver))
    } else {
        (GameState { winner: Some(Player::Program), ..s }, Ok(PebblesEvent::Won(Player::Program)))
    }
}

/// One action applied to a running game.
pub open spec fn handle_outcome(s: GameState, action: PebblesAction, first_draw: u32, move_draw: u32) -> (
    GameState,
    Result<Option<PebblesEvent>, PebblesError>,
) {
    match action {
        PebblesAction::Turn(count) => {
            let (t, r) = turn_outcome(s, count, move_draw);
            (t, match r { Ok(ev) => Ok(Some(ev)), Err(e) => Err(e) })
        },
        PebblesAction::GiveUp => {
            let (t, r) = give_up_outcome(s);
            (t, match r { Ok(ev) => Ok(Some(ev)), Err(e) => Err(e) })
        },
        PebblesAction::Restart { difficulty, pebbles_count, max_pebbles_per_turn } => {
            let config = PebblesInit { difficulty, pebbles_count, max_pebbles_per_turn };
            match start_outcome(config, first_draw, move_draw) {
                Ok((t, ev)) => (t, Ok(ev)),
                Err(e) => (s, Err(e)),
            }
        },
    }
}

/// The program's turn applied to `game_state`; returns the event it reports.
fn play_program_turn(game_state: &mut GameState, draw: u32) -> (ev: PebblesEvent)
    requires
        old(game_state).pebbles_remaining > 0,
        old(game_state).max_pebbles_per_turn > 0,
    ensures
        (*final(game_state), ev) == program_reply(*old(game_state), draw),
        final(game_state).pebbles_remaining < old(game_state).pebbles_remaining,
        old(game_state).wf() ==> final(game_state).wf(),
{
    proof {
        crate::strategy::lemma_program_move_legal(*game_state, draw);
    }
    let pebbles_to_remove = program_turn(game_state, draw);
    game_state.pebbles_remaining = game_state.pebbles_remaining - pebbles_to_remove;
    if game_state.pebbles_remaining == 0 {
        game_state.winner = Some(Player::Program);
        PebblesEvent::Won(Player::Program)
    } else {
        PebblesEvent::CounterTurn(pebbles_to_remove)
    }
}

/// Starts a game under `config`. The first player is the user where
/// `first_draw` is even and the program otherwise; a program that moves first
/// does so at once, with `move_draw`, and its move is reported.
pub fn init(config: &PebblesInit, first_draw: u32, move_draw: u32) -> (r: Result<
    (GameState, Option<PebblesEvent>),
    PebblesError,
>)
    ensures
        r == start_outcome(*config, first_draw, move_draw),
        r is Ok <==> config.valid(),
        r matches Ok((s, _)) ==> s.wf(),
{
    if config.pebbles_count == 0 {
        return Err(PebblesError::ZeroPebbles);
    }
    if config.max_pebbles_per_turn == 0 {
        return Err(PebblesError::ZeroMaxPerTurn);
    }
    if config.max_pebbles_per_turn > config.pebbles_count {
        return Err(PebblesError::MaxExceedsCount);
    }
    let first_player = if first_draw % 2 == 0 {
        Player::User
    } else {
        Player::Program
    };
    let mut game_state = GameState {
        pebbles_count: config.pebbles_count,
        max_pebbles_per_turn: config.max_pebbles_per_turn,
        pebbles_remaining: config.pebbles_count,
        difficulty: config.difficulty,
        first_player,
        winner: None,
    };
    if first_player == Player::Program {
        let ev = play_program_turn(&mut game_state, move_draw);
        Ok((game_state, Some(ev)))
    } else {
        Ok((game_state, None))
    }
}

/// The user removes `count` pebbles; unless that empties the pool, the
/// program answers at once, with `draw`. A refused turn changes nothing.
pub fn user_turn(game_state: &mut GameState, count: u32, draw: u32) -> (r: Result<PebblesEvent, PebblesError>)
    ensures
        (*final(game_state), r) == turn_outcome(*old(game_state), count, draw),
        r is Err <==> turn_error(*old(game_state), count) is Some,
        old(game_state).wf() ==> final(game_state).wf(),
{
    if game_state.winner.is_some() {
        return Err(PebblesError::GameOver);
    }
    if count == 0 {
        return Err(PebblesError::ZeroCount);
    }
    if count > game_state.max_pebbles_per_turn {
        return Err(PebblesError::ExceedsMaxPerTurn);
    }
    if count > game_state.pebbles_remaining {
        return Err(PebblesError::ExceedsRemaining);
    }
    game_state.pebbles_remaining = game_state.pebbles_remaining - count;
    if game_state.pebbles_remaining == 0 {
        game_state.winner = Some(Player::User);
        Ok(PebblesEvent::Won(Player::User))
    } else {
        Ok(play_program_turn(game_state, draw))
    }
}

/// The user concedes: the program wins without touching the pool. Refused
/// once the game has a winner.
pub fn give_up(game_state: &mut GameState) -> (r: Result<PebblesEvent, PebblesError>)
    ensures
        (*final(game_state), r) == give_up_outcome(*old(game_state)),
        r is Err <==> old(game_state).winner is Some,
        old(game_state).wf() ==> final(game_state).wf(),
{
    if game_state.winner.is_some() {
        return Err(PebblesError::GameOver);
    }
    game_state.winner = Some(Player::Program);
    Ok(PebblesEvent::Won(Player::Program))
}

/// Applies one action to the game. A turn or a concession reports its event;
/// a restart replaces the game as `init` would and reports the program's
/// opening move, if it had one. A refused action changes nothing.
pub fn handle(game_state: &mut GameState, action: PebblesAction, first_draw: u32, move_draw: u32) -> (r: Result<
    Option<PebblesEvent>,
    PebblesError,
>)
    ensures
        (*final(game_state), r) == handle_outcome(*old(game_state), action, first_draw, move_draw),
        r is Err ==> *final(game_state) == *old(game_state),
        old(game_state).wf() ==> final(game_state).wf(),
{
    match action {
        PebblesAction::Turn(count) => match user_turn(game_state, count, move_draw) {
            Ok(ev) => Ok(Some(ev)),
            Err(e) => Err(e),
        },
        PebblesAction::GiveUp => match give_up(game_state) {
            Ok(ev) => Ok(Some(ev)),
            Err(e) => Err(e),
        },
        PebblesAction::Restart { difficulty, pebbles_count, max_pebbles_per_turn } => {
            let config = PebblesInit { difficulty, pebbles_count, max_pebbles_per_turn };
            match init(&config, first_draw, move_draw) {
                Ok((s, ev)) => {
                    *game_state = s;
                    Ok(ev)
                },
                Err(e) => Err(e),
            }
        },
    }
}

/// A snapshot of the game.
pub fn state(game_state: &GameState) -> (r: GameState)
    ensures
        r == *game_state,
{
    *game_state
}

} // verus!
