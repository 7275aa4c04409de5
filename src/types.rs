use vstd::prelude::*;

verus! {

/// The two parties of a game.
#[derive(Clone, Copy, Debug, PartialEq, Eq, Structural)]
pub enum Player {
    User,
    Program,
}

/// How the program chooses its moves.
#[derive(Clone, Copy, Debug, PartialEq, Eq, Structural)]
pub enum DifficultyLevel {
    /// A uniformly random legal move.
    Easy,
    /// The optimal move of the subtraction game.
    Hard,
}

/// The configuration a game is started with.
#[derive(Clone, Copy, Debug, PartialEq, Eq, Structural)]
pub struct PebblesInit {
    pub difficulty: DifficultyLevel,
    pub pebbles_count: u32,
    pub max_pebbles_per_turn: u32,
}

/// What the user may ask of a running game.
#[derive(Clone, Copy, Debug, PartialEq, Eq, Structural)]
pub enum PebblesAction {
    Turn(u32),
    GiveUp,
    Restart { difficulty: DifficultyLevel, pebbles_count: u32, max_pebbles_per_turn: u32 },
}

/// What a game reports back after an action.
#[derive(Clone, Copy, Debug, PartialEq, Eq, Structural)]
pub enum PebblesEvent {
    /// The program answered by removing this many pebbles.
    CounterTurn(u32),
    /// The game is over and this party won.
    Won(Player),
}

/// Why an action was refused. A refused action changes nothing.
#[derive(Clone, Copy, Debug, PartialEq, Eq, Structural)]
pub enum PebblesError {
    /// The configuration has no pebbles.
    ZeroPebbles,
    /// The configuration allows no pebble to be removed per turn.
    ZeroMaxPerTurn,
    /// The configuration allows more per turn than there are pebbles.
    MaxExceedsCount,
    /// A turn that removes no pebble.
    ZeroCount,
    /// A turn that removes more than the per-turn maximum.
    ExceedsMaxPerTurn,
    /// A turn that removes more pebbles than remain.
    ExceedsRemaining,
    /// The game already has a winner.
    GameOver,
}

/// The whole state of one game.
#[derive(Clone, Copy, Debug, PartialEq, Eq, Structural)]
pub struct GameState {
    pub pebbles_count: u32,
    pub max_pebbles_per_turn: u32,
    pub pebbles_remaining: u32,
    pub difficulty: DifficultyLevel,
    pub first_player: Player,
    pub winner: Option<Player>,
}

impl PebblesInit {
    /// A configuration a game can be started with.
    pub open spec fn valid(self) -> bool {
        &&& self.pebbles_count > 0
        &&& self.max_pebbles_per_turn > 0
        &&& self.max_pebbles_per_turn <= self.pebbles_count
    }
}

impl GameState {
    /// The configuration part of the state is valid, the pool never exceeds
    /// its start, a game without a winner still has pebbles, and the user can
    /// only have won by taking the last pebble.
    pub open spec fn wf(self) -> bool {
        &&& self.pebbles_count > 0
        &&& self.max_pebbles_per_turn > 0
        &&& self.max_pebbles_per_turn <= self.pebbles_count
        &&& self.pebbles_remaining <= self.pebbles_count
        &&& self.winner is None ==> self.pebbles_remaining > 0
        &&& self.winner == Some(Player::User) ==> self.pebbles_remaining == 0
    }

    /// The most pebbles a party may remove in its next turn.
    pub open spec fn turn_cap(self) -> int {
        if self.max_pebbles_per_turn <= self.pebbles_remaining {
            self.max_pebbles_per_turn as int
        } else {
            self.pebbles_remaining as int
        }
    }
}

} // verus!
