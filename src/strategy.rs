use vstd::prelude::*;
use crate::types::{DifficultyLevel, GameState};

verus! {

/// The optimal move: leave a multiple of `max + 1` pebbles, or concede a
/// single pebble where the pool already is such a multiple.
pub open spec fn hard_move(remaining: int, max: int) -> int {
    let r = remaining % (max + 1);
    if r == 0 { 1 } else { r }
}

/// The random move: the draw reduced into `1..=cap`.
pub open spec fn easy_move(draw: u32, cap: int) -> int {
    (draw as int) % cap + 1
}

/// How many pebbles the program removes from `s`, given the draw `draw`.
pub open spec fn program_move(s: GameState, draw: u32) -> int {
    match s.difficulty {
        DifficultyLevel::Easy => easy_move(draw, s.turn_cap()),
        DifficultyLevel::Hard => hard_move(s.pebbles_remaining as int, s.max_pebbles_per_turn as int),
    }
}

/// Every move of the program is legal: it removes at least one pebble, no
/// more than the per-turn maximum and no more than remain, at either level
/// and for every draw of the randomness source.
pub proof fn lemma_program_move_legal(s: GameState, draw: u32)
    requires
        s.pebbles_remaining > 0,
        s.max_pebbles_per_turn > 0,
    ensures
        1 <= program_move(s, draw) <= s.turn_cap(),
{
    let remaining = s.pebbles_remaining as int;
    let max = s.max_pebbles_per_turn as int;
    let cap = s.turn_cap();
    assert(0 <= (draw as int) % cap < cap) by (nonlinear_arith)
        requires cap > 0;
    assert(0 <= remaining % (max + 1) <= max) by (nonlinear_arith)
        requires max > 0;
    if remaining <= max {
        assert(remaining % (max + 1) == remaining) by (nonlinear_arith)
            requires 0 < remaining <= max;
    }
}

/// The number of pebbles the program removes in its turn. `draw` is a value
/// of the randomness source; only the easy level reads it.
pub fn program_turn(game_state: &GameState, draw: u32) -> (r: u32)
    requires
        game_state.pebbles_remaining > 0,
        game_state.max_pebbles_per_turn > 0,
    ensures
        r == program_move(*game_state, draw),
        1 <= r <= game_state.turn_cap(),
{
    let remaining = game_state.pebbles_remaining;
    let max = game_state.max_pebbles_per_turn;
    match game_state.difficulty {
        DifficultyLevel::Easy => {
            let cap: u32 = if max <= remaining { max } else { remaining };
            draw % cap + 1
        },
        DifficultyLevel::Hard => {
            // `remaining % (max + 1)` is `remaining` itself while it does not
            // exceed `max`, which also keeps `max + 1` from overflowing.
            let target: u32 = if remaining <= max {
                proof {
                    assert(remaining as int % (max as int + 1) == remaining as int)
                        by (nonlinear_arith)
                        requires 0 < remaining <= max;
                }
                remaining
            } else {
                remaining % (max + 1)
            };
            if target == 0 {
                1
            } else {
                target
            }
        },
    }
}

} // verus!
