//! One game per session: a slot that holds the current game, the actions a
//! host can deliver to it, and the dispatch that answers them.

use vstd::prelude::*;

use crate::engine::GameError;
use crate::engine::PebblesEvent;
use crate::engine::human_turn;
use crate::engine::give_up;
use crate::engine::init_state;
use crate::engine::initialize;
use crate::engine::restart;
use crate::engine::human_turn_event;
use crate::engine::state_after_human_turn;
use crate::engine::turn_allowed;
use crate::game::DifficultyLevel;
use crate::game::GameConfig;
use crate::game::GameState;
use crate::game::Player;
use crate::game::state_wf;
use crate::game::valid_config;

verus! {

/// A request a host delivers to a running session.
#[derive(Clone, Copy, Debug, PartialEq, Eq)]
pub enum PebblesAction {
    /// The human removes this many pebbles (the Program replies in turn).
    Turn(u32),
    /// The human concedes; the Program wins.
    GiveUp,
    /// Throw the current game away and build a new one from these parameters.
    Restart { difficulty: DifficultyLevel, pebbles_count: u32, max_pebbles_per_turn: u32 },
}

/// The per-session storage: at most one game, absent until the first
/// successful initialization, replaced wholesale by a restart.
pub struct Session {
    game: Option<GameState>,
}

impl Session {
    /// The stored game, as the contracts speak of it.
    pub closed spec fn game_spec(self) -> Option<GameState> {
        self.game
    }

    /// Every game the session ever holds is well-formed.
    pub closed spec fn wf(self) -> bool {
        self.game matches Some(s) ==> state_wf(s)
    }

    /// A session with no game yet.
    pub fn new() -> (session: Session)
        ensures
            session.game_spec() is None,
            session.wf(),
    {
        Session { game: None }
    }

    /// Starts a game from `config`, replacing whatever was stored.  Refused
    /// (leaving the slot untouched) only on an invalid configuration.
    pub fn init(&mut self, config: GameConfig, rand_first: u32, rand_ai: u32) -> (result: Result<
        (),
        GameError,
    >)
        requires
            old(self).wf(),
        ensures
            final(self).wf(),
            valid_config(config) ==> result == Ok::<(), GameError>(()) && final(self).game_spec()
                == Some(init_state(config, rand_first, rand_ai)),
            !valid_config(config) ==> result == Err::<(), GameError>(GameError::InvalidConfig)
                && *final(self) == *old(self),
    {
        match initialize(config, rand_first, rand_ai) {
            Ok(state) => {
                self.game = Some(state);
                Ok(())
            },
            Err(e) => Err(e),
        }
    }

    /// A read-only snapshot of the current game; `NotInitialized` before the
    /// first successful initialization.
    pub fn query_state(&self) -> (result: Result<GameState, GameError>)
        ensures
            self.game_spec() matches Some(s) ==> result == Ok::<GameState, GameError>(s),
            self.game_spec() is None ==> result == Err::<GameState, GameError>(
                GameError::NotInitialized,
            ),
    {
        match &self.game {
            Some(state) => Ok(*state),
            None => Err(GameError::NotInitialized),
        }
    }

    /// One human turn against the stored game, with the Program's reply
    /// drawn from `rand`.  The pile never grows; every refusal leaves the
    /// session untouched.
    pub fn turn(&mut self, amount: u32, rand: u32) -> (result: Result<PebblesEvent, GameError>)
        requires
            old(self).wf(),
        ensures
            final(self).wf(),
            old(self).game_spec() is None ==> result == Err::<PebblesEvent, GameError>(
                GameError::NotInitialized,
            ) && *final(self) == *old(self),
            old(self).game_spec() matches Some(s) ==> {
                &&& final(self).game_spec() is Some
                &&& final(self).game_spec().unwrap().pebbles_remaining <= s.pebbles_remaining
                &&& s.winner is Some ==> result == Err::<PebblesEvent, GameError>(
                    GameError::GameAlreadyFinished,
                ) && *final(self) == *old(self)
                &&& s.winner is None && !turn_allowed(s, amount) ==> result == Err::<
                    PebblesEvent,
                    GameError,
                >(GameError::InvalidMove) && *final(self) == *old(self)
                &&& turn_allowed(s, amount) ==> {
                    &&& final(self).game_spec() == Some(state_after_human_turn(s, amount, rand))
                    &&& result == Ok::<PebblesEvent, GameError>(human_turn_event(s, amount, rand))
                }
            },
    {
        match &mut self.game {
            Some(state) => human_turn(state, amount, rand),
            None => Err(GameError::NotInitialized),
        }
    }

    /// The human concedes the stored game: the Program is recorded as the
    /// winner and the pile is left exactly as it was.  Refused on a decided
    /// game or before the first initialization, leaving the session untouched.
    pub fn give_up(&mut self) -> (result: Result<PebblesEvent, GameError>)
        requires
            old(self).wf(),
        ensures
            final(self).wf(),
            old(self).game_spec() is None ==> result == Err::<PebblesEvent, GameError>(
                GameError::NotInitialized,
            ) && *final(self) == *old(self),
            old(self).game_spec() matches Some(s) ==> {
                &&& s.winner is Some ==> result == Err::<PebblesEvent, GameError>(
                    GameError::GameAlreadyFinished,
                ) && *final(self) == *old(self)
                &&& s.winner is None ==> {
                    &&& final(self).game_spec() == Some(
                        GameState { winner: Some(Player::Program), ..s },
                    )
                    &&& result == Ok::<PebblesEvent, GameError>(
                        PebblesEvent::Won(Player::Program),
                    )
                }
            },
    {
        match &mut self.game {
            Some(state) => give_up(state),
            None => Err(GameError::NotInitialized),
        }
    }

    /// Replaces the stored game with a new one built from `config`: the slot
    /// afterwards holds exactly what a fresh initialization with the same
    /// configuration and the same draws stores.  Refused before the first
    /// initialization and on an invalid configuration, leaving the session
    /// untouched.
    pub fn restart(&mut self, config: GameConfig, rand_first: u32, rand_ai: u32) -> (result:
        Result<(), GameError>)
        requires
            old(self).wf(),
        ensures
            final(self).wf(),
            old(self).game_spec() is None ==> result == Err::<(), GameError>(
                GameError::NotInitialized,
            ) && *final(self) == *old(self),
            old(self).game_spec() is Some && valid_config(config) ==> result == Ok::<(),
                GameError,
            >(()) && final(self).game_spec() == Some(init_state(config, rand_first, rand_ai)),
            old(self).game_spec() is Some && !valid_config(config) ==> result == Err::<(),
                GameError,
            >(GameError::InvalidConfig) && *final(self) == *old(self),
    {
        if self.game.is_none() {
            return Err(GameError::NotInitialized);
        }
        match restart(config, rand_first, rand_ai) {
            Ok(state) => {
                self.game = Some(state);
                Ok(())
            },
            Err(e) => Err(e),
        }
    }

    /// Answers one host request: a turn or a concession yields an event to
    /// report back, a restart yields none.  `rand_first` feeds a restart's
    /// first-mover draw; `rand_ai` feeds whichever Program move the request
    /// brings about.
    pub fn handle(&mut self, action: PebblesAction, rand_first: u32, rand_ai: u32) -> (result:
        Result<Option<PebblesEvent>, GameError>)
        requires
            old(self).wf(),
        ensures
            final(self).wf(),
            old(self).game_spec() is None ==> result == Err::<Option<PebblesEvent>, GameError>(
                GameError::NotInitialized,
            ) && *final(self) == *old(self),
            old(self).game_spec() matches Some(s) ==> match action {
                PebblesAction::Turn(amount) => {
                    &&& s.winner is Some ==> result == Err::<Option<PebblesEvent>, GameError>(
                        GameError::GameAlreadyFinished,
                    ) && *final(self) == *old(self)
                    &&& s.winner is None && !turn_allowed(s, amount) ==> result == Err::<
                        Option<PebblesEvent>,
                        GameError,
                    >(GameError::InvalidMove) && *final(self) == *old(self)
                    &&& turn_allowed(s, amount) ==> {
                        &&& final(self).game_spec() == Some(
                            state_after_human_turn(s, amount, rand_ai),
                        )
                        &&& result == Ok::<Option<PebblesEvent>, GameError>(
                            Some(human_turn_event(s, amount, rand_ai)),
                        )
                    }
                },
                PebblesAction::GiveUp => {
                    &&& s.winner is Some ==> result == Err::<Option<PebblesEvent>, GameError>(
                        GameError::GameAlreadyFinished,
                    ) && *final(self) == *old(self)
                    &&& s.winner is None ==> {
                        &&& final(self).game_spec() == Some(
                            GameState { winner: Some(Player::Program), ..s },
                        )
                        &&& result == Ok::<Option<PebblesEvent>, GameError>(
                            Some(PebblesEvent::Won(Player::Program)),
                        )
                    }
                },
                PebblesAction::Restart { difficulty, pebbles_count, max_pebbles_per_turn } => {
                    let config = GameConfig { difficulty, pebbles_count, max_pebbles_per_turn };
                    &&& valid_config(config) ==> result == Ok::<Option<PebblesEvent>, GameError>(
                        None,
                    ) && final(self).game_spec() == Some(
                        init_state(config, rand_first, rand_ai),
                    )
                    &&& !valid_config(config) ==> result == Err::<Option<PebblesEvent>, GameError>(
                        GameError::InvalidConfig,
                    ) && *final(self) == *old(self)
                },
            },
    {
        match action {
            PebblesAction::Turn(amount) => {
                match self.turn(amount, rand_ai) {
                    Ok(event) => Ok(Some(event)),
                    Err(e) => Err(e),
                }
            },
            PebblesAction::GiveUp => {
                match self.give_up() {
                    Ok(event) => Ok(Some(event)),
                    Err(e) => Err(e),
                }
            },
            PebblesAction::Restart { difficulty, pebbles_count, max_pebbles_per_turn } => {
                let config = GameConfig { difficulty, pebbles_count, max_pebbles_per_turn };
                match self.restart(config, rand_first, rand_ai) {
                    Ok(()) => Ok(None),
                    Err(e) => Err(e),
                }
            },
        }
    }
}

} // verus!
