use vstd::prelude::*;
use crate::game::{
    fresh_state, give_up_outcome, handle_outcome, program_reply, start_outcome, turn_error,
    turn_outcome,
};
use crate::strategy::{lemma_program_move_legal, program_move};
use crate::types::{
    DifficultyLevel, GameState, PebblesAction, PebblesError, PebblesEvent, PebblesInit, Player,
};

verus! {

/// The pool only shrinks: a legal user turn removes at least one pebble,
/// the program's answer, where there is one, removes at least one more, and
/// the game stays well formed.
pub proof fn lemma_turns_decrease(s: GameState, count: u32, draw: u32)
    requires
        s.wf(),
        turn_error(s, count) is None,
    ensures
        ({
            let t = turn_outcome(s, count, draw).0;
            let after_user = s.pebbles_remaining - count;
            &&& 0 <= after_user < s.pebbles_remaining
            &&& t.pebbles_remaining <= after_user
            &&& after_user > 0 ==> t.pebbles_remaining < after_user
            &&& t.wf()
        }),
{
    let left = (s.pebbles_remaining - count) as u32;
    let s1 = GameState { pebbles_remaining: left, ..s };
    if left > 0 {
        lemma_program_move_legal(s1, draw);
    }
}

/// The state after a run of user turns, each a count and the draw the
/// program answers with; a refused turn leaves the state as it was.
pub open spec fn play_turns(s: GameState, turns: Seq<(u32, u32)>) -> GameState
    decreases turns.len(),
{
    if turns.len() == 0 {
        s
    } else {
        let t = turn_outcome(s, turns[0].0, turns[0].1).0;
        play_turns(t, turns.drop_first())
    }
}

/// Over any run of turns the pool never grows and the game stays well
/// formed; each accepted turn in it shrinks the pool as
/// `lemma_turns_decrease` states.
pub proof fn lemma_play_turns_never_grows(s: GameState, turns: Seq<(u32, u32)>)
    requires
        s.wf(),
    ensures
        play_turns(s, turns).pebbles_remaining <= s.pebbles_remaining,
        play_turns(s, turns).wf(),
    decreases turns.len(),
{
    if turns.len() > 0 {
        let (count, draw) = turns[0];
        if turn_error(s, count) is None {
            lemma_turns_decrease(s, count, draw);
        }
        lemma_play_turns_never_grows(turn_outcome(s, count, draw).0, turns.drop_first());
    }
}

/// A finished game is final: every further turn or concession is refused
/// with `GameOver` and leaves the state, and so its winner, as it was.
pub proof fn lemma_winner_is_final(s: GameState, count: u32, first_draw: u32, move_draw: u32)
    requires
        s.winner is Some,
    ensures
        turn_outcome(s, count, move_draw) == (s, Err::<PebblesEvent, PebblesError>(PebblesError::GameOver)),
        give_up_outcome(s) == (s, Err::<PebblesEvent, PebblesError>(PebblesError::GameOver)),
        handle_outcome(s, PebblesAction::Turn(count), first_draw, move_draw)
            == (s, Err::<Option<PebblesEvent>, PebblesError>(PebblesError::GameOver)),
        handle_outcome(s, PebblesAction::GiveUp, first_draw, move_draw)
            == (s, Err::<Option<PebblesEvent>, PebblesError>(PebblesError::GameOver)),
{
}

/// At the hard level the program, facing a pool that is not a multiple of
/// `max_pebbles_per_turn + 1`, leaves one that is.
pub proof fn lemma_hard_leaves_multiple(s: GameState, draw: u32)
    requires
        s.wf(),
        s.winner is None,
        s.difficulty == DifficultyLevel::Hard,
        s.pebbles_remaining as int % (s.max_pebbles_per_turn + 1) != 0,
    ensures
        program_reply(s, draw).0.pebbles_remaining as int % (s.max_pebbles_per_turn + 1) == 0,
{
    let remaining = s.pebbles_remaining as int;
    let m = s.max_pebbles_per_turn + 1;
    lemma_program_move_legal(s, draw);
    assert((remaining - remaining % m) % m == 0) by (nonlinear_arith)
        requires m > 0, remaining >= 0;
}

/// Conceding a running game hands the win to the program at once, whatever
/// is left in the pool, and touches nothing else.
pub proof fn lemma_give_up_wins(s: GameState, first_draw: u32, move_draw: u32)
    requires
        s.winner is None,
    ensures
        handle_outcome(s, PebblesAction::GiveUp, first_draw, move_draw) == (
            GameState { winner: Some(Player::Program), ..s },
            Ok::<Option<PebblesEvent>, PebblesError>(Some(PebblesEvent::Won(Player::Program))),
        ),
{
}

/// A restart succeeds exactly on a valid configuration, from any state. The
/// new game carries the new configuration and a pool no larger than its
/// count, and it already has a winner only where the program moved first and
/// its opening move took the whole pool.
pub proof fn lemma_restart_shape(
    s: GameState,
    difficulty: DifficultyLevel,
    pebbles_count: u32,
    max_pebbles_per_turn: u32,
    first_draw: u32,
    move_draw: u32,
)
    ensures
        ({
            let config = PebblesInit { difficulty, pebbles_count, max_pebbles_per_turn };
            let action = PebblesAction::Restart { difficulty, pebbles_count, max_pebbles_per_turn };
            let (t, r) = handle_outcome(s, action, first_draw, move_draw);
            &&& r is Ok <==> config.valid()
            &&& r is Ok ==> {
                &&& t.pebbles_count == pebbles_count
                &&& t.max_pebbles_per_turn == max_pebbles_per_turn
                &&& t.difficulty == difficulty
                &&& t.pebbles_remaining <= pebbles_count
                &&& t.wf()
                &&& t.winner is Some ==> {
                    &&& t.winner == Some(Player::Program)
                    &&& t.first_player == Player::Program
                    &&& t.pebbles_remaining == 0
                    &&& program_move(fresh_state(config, Player::Program), move_draw) == pebbles_count
                }
            }
        }),
{
    let config = PebblesInit { difficulty, pebbles_count, max_pebbles_per_turn };
    if config.valid() {
        lemma_program_move_legal(fresh_state(config, Player::Program), move_draw);
    }
    assert(start_outcome(config, first_draw, move_draw) is Ok <==> config.valid());
}

} // verus!
