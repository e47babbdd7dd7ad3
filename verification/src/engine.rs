//! The turn engine: move application, the Program's strategy, initialization,
//! concession, and restart, each against an exact transition model.

use vstd::prelude::*;

use crate::game::DifficultyLevel;
use crate::game::GameConfig;
use crate::game::GameState;
use crate::game::Player;
use crate::game::choose_first_player;
use crate::game::first_player_of;
use crate::game::state_wf;
use crate::game::valid_config;

verus! {

/// What one operation reports back: either the game ended with a winner, or
/// it goes on and the opposing side is told how many pebbles the last move
/// removed.
#[derive(Clone, Copy, Debug, PartialEq, Eq, Structural)]
pub enum PebblesEvent {
    CounterTurn(u32),
    Won(Player),
}

/// Why an operation was refused.  Every error aborts the operation and
/// leaves the state untouched.
#[derive(Clone, Copy, Debug, PartialEq, Eq, Structural)]
pub enum GameError {
    /// Zero pile size or zero per-turn bound at initialization or restart.
    InvalidConfig,
    /// A move of 0 pebbles, or of more than the per-turn bound.
    InvalidMove,
    /// A turn or a concession after the winner was already decided.
    GameAlreadyFinished,
    /// Any operation other than initialization before the first game exists.
    NotInitialized,
}

/// The pile after removing `amount` pebbles: plain subtraction, floored at 0.
pub open spec fn pile_after(remaining: u32, amount: u32) -> u32 {
    if amount >= remaining {
        0u32
    } else {
        (remaining - amount) as u32
    }
}

/// The state after `actor` removes `amount` pebbles: the pile shrinks
/// (floored at 0), and whoever empties it is recorded as the winner.
pub open spec fn state_after_move(s: GameState, amount: u32, actor: Player) -> GameState {
    GameState {
        pebbles_remaining: pile_after(s.pebbles_remaining, amount),
        winner: if pile_after(s.pebbles_remaining, amount) == 0 {
            Some(actor)
        } else {
            s.winner
        },
        ..s
    }
}

/// What a move reports: a win for `actor` when it empties the pile, else the
/// amount removed, for the opposing side's information.
pub open spec fn move_event(s: GameState, amount: u32, actor: Player) -> PebblesEvent {
    if pile_after(s.pebbles_remaining, amount) == 0 {
        PebblesEvent::Won(actor)
    } else {
        PebblesEvent::CounterTurn(amount)
    }
}

/// The Program's raw choice before clamping, from one random draw.
/// Easy play is a uniformly random legal amount.  Hard play takes the pile
/// modulo `max + 1`: when that residue is nonzero it is the optimal move
/// (it leaves the opponent a pile that is a multiple of `max + 1`, a forced
/// loss under optimal play); when it is zero the position is already lost,
/// so the Program concedes as little as possible and plays 1.
pub open spec fn ai_amount(s: GameState, rand: u32) -> u32 {
    match s.difficulty {
        DifficultyLevel::Easy => (rand % s.max_pebbles_per_turn + 1) as u32,
        DifficultyLevel::Hard => {
            let optimal = ((s.pebbles_remaining as int) % (s.max_pebbles_per_turn as int
                + 1)) as u32;
            if optimal == 0 {
                1u32
            } else {
                optimal
            }
        },
    }
}

/// The amount the Program actually removes: its choice, clamped so it never
/// removes more pebbles than exist.
pub open spec fn program_amount(s: GameState, rand: u32) -> u32 {
    if ai_amount(s, rand) <= s.pebbles_remaining {
        ai_amount(s, rand)
    } else {
        s.pebbles_remaining
    }
}

/// The state after the Program takes its turn with draw `rand`.
pub open spec fn state_after_program_turn(s: GameState, rand: u32) -> GameState {
    state_after_move(s, program_amount(s, rand), Player::Program)
}

/// What the Program's turn with draw `rand` reports.
pub open spec fn program_turn_event(s: GameState, rand: u32) -> PebblesEvent {
    move_event(s, program_amount(s, rand), Player::Program)
}

/// The fresh state a valid configuration yields, before any opening move:
/// a full pile, no winner, and the first mover picked from `rand_first`.
pub open spec fn fresh_state(config: GameConfig, rand_first: u32) -> GameState {
    GameState {
        pebbles_count: config.pebbles_count,
        max_pebbles_per_turn: config.max_pebbles_per_turn,
        pebbles_remaining: config.pebbles_count,
        difficulty: config.difficulty,
        first_player: first_player_of(rand_first),
        winner: None,
    }
}

/// The state a valid configuration initializes to: the fresh state, with the
/// Program's opening move already applied when the Program moves first.
pub open spec fn init_state(config: GameConfig, rand_first: u32, rand_ai: u32) -> GameState {
    let s = fresh_state(config, rand_first);
    if first_player_of(rand_first) is Program {
        state_after_program_turn(s, rand_ai)
    } else {
        s
    }
}

/// What initialization (and restart) returns for each input: the initialized
/// state on a valid configuration, `InvalidConfig` otherwise.
pub open spec fn init_result(config: GameConfig, rand_first: u32, rand_ai: u32) -> Result<
    GameState,
    GameError,
> {
    if valid_config(config) {
        Ok(init_state(config, rand_first, rand_ai))
    } else {
        Err(GameError::InvalidConfig)
    }
}

/// A human move of `amount` is legal exactly when the game is still open and
/// the amount is between 1 and the per-turn bound.  The pile size does not
/// bound a legal move: taking more than remains empties the pile and wins.
pub open spec fn turn_allowed(s: GameState, amount: u32) -> bool {
    &&& s.winner is None
    &&& 1 <= amount <= s.max_pebbles_per_turn
}

/// The state after a legal human move of `amount` and, when the game goes
/// on, the Program's immediate reply with draw `rand`.
pub open spec fn state_after_human_turn(s: GameState, amount: u32, rand: u32) -> GameState {
    let s1 = state_after_move(s, amount, Player::User);
    if s1.pebbles_remaining == 0 {
        s1
    } else {
        state_after_program_turn(s1, rand)
    }
}

/// What a legal human turn reports: the human's win when it empties the
/// pile, else the outcome of the Program's immediate reply.
pub open spec fn human_turn_event(s: GameState, amount: u32, rand: u32) -> PebblesEvent {
    let s1 = state_after_move(s, amount, Player::User);
    if s1.pebbles_remaining == 0 {
        PebblesEvent::Won(Player::User)
    } else {
        program_turn_event(s1, rand)
    }
}

/// Picks the Program's pebble count for the current state from one random
/// draw, before clamping; always between 1 and the per-turn bound.
pub fn choose_amount(state: &GameState, rand: u32) -> (amount: u32)
    requires
        state_wf(*state),
    ensures
        amount == ai_amount(*state, rand),
        1 <= amount <= state.max_pebbles_per_turn,
{
    match state.difficulty {
        DifficultyLevel::Easy => rand % state.max_pebbles_per_turn + 1,
        DifficultyLevel::Hard => {
            let divisor: u64 = state.max_pebbles_per_turn as u64 + 1;
            let optimal: u64 = state.pebbles_remaining as u64 % divisor;
            proof {
                vstd::arithmetic::div_mod::lemma_mod_division_less_than_divisor(
                    state.pebbles_remaining as int,
                    state.max_pebbles_per_turn as int + 1,
                );
            }
            if optimal == 0 {
                1
            } else {
                optimal as u32
            }
        },
    }
}

/// Removes `amount` pebbles for `actor`: the pile shrinks, floored at 0, and
/// emptying it records `actor` as the winner.  The shared primitive under
/// every move; callers guarantee the game is still open.
pub fn apply_move(state: &mut GameState, amount: u32, actor: Player) -> (event: PebblesEvent)
    requires
        state_wf(*old(state)),
        old(state).winner is None,
    ensures
        *final(state) == state_after_move(*old(state), amount, actor),
        event == move_event(*old(state), amount, actor),
        state_wf(*final(state)),
        final(state).pebbles_remaining <= old(state).pebbles_remaining,
{
    if amount >= state.pebbles_remaining {
        state.pebbles_remaining = 0;
        state.winner = Some(actor);
        PebblesEvent::Won(actor)
    } else {
        state.pebbles_remaining = state.pebbles_remaining - amount;
        PebblesEvent::CounterTurn(amount)
    }
}

/// Plays one turn for the Program: picks an amount from `rand`, clamps it to
/// the pile, and applies it.  The pile strictly shrinks.
pub fn program_turn(state: &mut GameState, rand: u32) -> (event: PebblesEvent)
    requires
        state_wf(*old(state)),
        old(state).winner is None,
    ensures
        *final(state) == state_after_program_turn(*old(state), rand),
        event == program_turn_event(*old(state), rand),
        state_wf(*final(state)),
        final(state).pebbles_remaining < old(state).pebbles_remaining,
{
    let chosen = choose_amount(state, rand);
    let amount = if chosen <= state.pebbles_remaining {
        chosen
    } else {
        state.pebbles_remaining
    };
    apply_move(state, amount, Player::Program)
}

/// Builds a fresh game from `config`.  Refuses an invalid configuration with
/// `InvalidConfig`.  Otherwise `rand_first` picks who moves first; when that
/// is the Program, its opening move (drawn from `rand_ai`) is already applied
/// to the returned state, so the caller always receives a state where the
/// human moves next or the Program has already won (possible only when one
/// opening move can empty the pile).
pub fn initialize(config: GameConfig, rand_first: u32, rand_ai: u32) -> (result: Result<
    GameState,
    GameError,
>)
    ensures
        result == init_result(config, rand_first, rand_ai),
        result is Ok <==> valid_config(config),
        result matches Ok(s) ==> {
            &&& state_wf(s)
            &&& s.pebbles_remaining <= config.pebbles_count
            &&& s.winner is None || s.winner == Some(Player::Program)
            &&& s.winner is Some ==> s.pebbles_remaining == 0
        },
{
    if config.pebbles_count == 0 || config.max_pebbles_per_turn == 0 {
        return Err(GameError::InvalidConfig);
    }
    let first_player = choose_first_player(rand_first);
    let mut state = GameState {
        pebbles_count: config.pebbles_count,
        max_pebbles_per_turn: config.max_pebbles_per_turn,
        pebbles_remaining: config.pebbles_count,
        difficulty: config.difficulty,
        first_player,
        winner: None,
    };
    if let Player::Program = first_player {
        let _ = program_turn(&mut state, rand_ai);
    }
    Ok(state)
}

/// Rebuilds the game from a new configuration: exactly what initialization
/// with the same configuration and the same draws yields, with no carryover
/// from the game it replaces.
pub fn restart(config: GameConfig, rand_first: u32, rand_ai: u32) -> (result: Result<
    GameState,
    GameError,
>)
    ensures
        result == init_result(config, rand_first, rand_ai),
{
    initialize(config, rand_first, rand_ai)
}

/// Applies one human move and, when the game goes on, the Program's
/// immediate reply drawn from `rand`; the caller never observes a state
/// where the human has moved but the Program has not yet answered.
/// Refused with `GameAlreadyFinished` on a decided game and with
/// `InvalidMove` on an amount of 0 or above the per-turn bound; either
/// refusal leaves the state untouched.  A legal amount may exceed the pile:
/// the move then takes the rest and wins.
pub fn human_turn(state: &mut GameState, amount: u32, rand: u32) -> (result: Result<
    PebblesEvent,
    GameError,
>)
    requires
        state_wf(*old(state)),
    ensures
        state_wf(*final(state)),
        final(state).pebbles_remaining <= old(state).pebbles_remaining,
        old(state).winner is Some ==> result == Err::<PebblesEvent, GameError>(
            GameError::GameAlreadyFinished,
        ) && *final(state) == *old(state),
        old(state).winner is None && !turn_allowed(*old(state), amount) ==> result == Err::<
            PebblesEvent,
            GameError,
        >(GameError::InvalidMove) && *final(state) == *old(state),
        turn_allowed(*old(state), amount) ==> {
            &&& *final(state) == state_after_human_turn(*old(state), amount, rand)
            &&& result == Ok::<PebblesEvent, GameError>(
                human_turn_event(*old(state), amount, rand),
            )
        },
{
    if state.winner.is_some() {
        return Err(GameError::GameAlreadyFinished);
    }
    if amount == 0 || amount > state.max_pebbles_per_turn {
        return Err(GameError::InvalidMove);
    }
    let event = apply_move(state, amount, Player::User);
    if let PebblesEvent::CounterTurn(_) = event {
        Ok(program_turn(state, rand))
    } else {
        Ok(event)
    }
}

/// Concedes the game to the Program.  Refused with `GameAlreadyFinished` on
/// a decided game; otherwise the Program is recorded as the winner and the
/// pile is left exactly as it was.
pub fn give_up(state: &mut GameState) -> (result: Result<PebblesEvent, GameError>)
    requires
        state_wf(*old(state)),
    ensures
        state_wf(*final(state)),
        final(state).pebbles_remaining == old(state).pebbles_remaining,
        old(state).winner is Some ==> result == Err::<PebblesEvent, GameError>(
            GameError::GameAlreadyFinished,
        ) && *final(state) == *old(state),
        old(state).winner is None ==> {
            &&& *final(state) == GameState { winner: Some(Player::Program), ..*old(state) }
            &&& result == Ok::<PebblesEvent, GameError>(PebblesEvent::Won(Player::Program))
        },
{
    if state.winner.is_some() {
        return Err(GameError::GameAlreadyFinished);
    }
    state.winner = Some(Player::Program);
    Ok(PebblesEvent::Won(Player::Program))
}

} // verus!
