//! Data model of a single game and the validity conditions every reachable
//! state satisfies.

use vstd::prelude::*;

verus! {

/// A side of the game: the built-in opponent or the human player.
#[derive(Clone, Copy, Debug, PartialEq, Eq, Structural)]
pub enum Player {
    Program,
    User,
}

/// How the Program picks its moves; fixed for the lifetime of one game.
#[derive(Clone, Copy, Debug, PartialEq, Eq, Structural)]
pub enum DifficultyLevel {
    Easy,
    Hard,
}

/// The parameters a new game is built from.  A configuration is valid only
/// when both counts are positive; see [`valid_config`].
#[derive(Clone, Copy, Debug, PartialEq, Eq, Structural)]
pub struct GameConfig {
    pub difficulty: DifficultyLevel,
    pub pebbles_count: u32,
    pub max_pebbles_per_turn: u32,
}

/// The record of one in-progress or finished game.
#[derive(Clone, Copy, Debug, PartialEq, Eq)]
pub struct GameState {
    /// Original pile size, fixed at initialization.
    pub pebbles_count: u32,
    /// Upper bound on the pebbles one move may remove, fixed at initialization.
    pub max_pebbles_per_turn: u32,
    /// Pebbles still in the pile; never increases, floored at 0.
    pub pebbles_remaining: u32,
    /// The Program's move policy, fixed at initialization.
    pub difficulty: DifficultyLevel,
    /// Which side moved first, fixed at initialization.
    pub first_player: Player,
    /// `None` while the game is in progress; set exactly once on game end.
    pub winner: Option<Player>,
}

/// A configuration is acceptable exactly when the pile and the per-turn
/// bound are both positive.
pub open spec fn valid_config(config: GameConfig) -> bool {
    config.pebbles_count > 0 && config.max_pebbles_per_turn > 0
}

/// Well-formedness of a game state.  Every state this crate hands out
/// satisfies it: the fixed counts are positive, the pile never exceeds its
/// original size, and an empty pile always has a winner recorded.
/// (The converse need not hold: a concession records a winner while pebbles
/// remain.)
pub open spec fn state_wf(s: GameState) -> bool {
    &&& s.pebbles_count > 0
    &&& s.max_pebbles_per_turn > 0
    &&& s.pebbles_remaining <= s.pebbles_count
    &&& s.pebbles_remaining == 0 ==> s.winner is Some
}

/// Who moves first, as decided by one random draw: an even draw puts the
/// Program first, an odd one the User.
pub open spec fn first_player_of(rand: u32) -> Player {
    if rand % 2 == 0 {
        Player::Program
    } else {
        Player::User
    }
}

/// Picks the side that moves first from one random draw.
pub fn choose_first_player(rand: u32) -> (player: Player)
    ensures
        player == first_player_of(rand),
{
    if rand % 2 == 0 {
        Player::Program
    } else {
        Player::User
    }
}

} // verus!
