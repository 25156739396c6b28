//! What each request does to a game, stated on plain values: the state that
//! it leaves, the moves that it announces and the answer that it gets.
//!
//! Every random draw is an argument. `first_draw` decides who opens a new
//! game; `move_draw` feeds the program's move, and is ignored by a request
//! in which the program does not move.

use crate::model::{ConfigError, GameState, PebblesAction, PebblesEvent, PebblesInit, Player, Reply};
use vstd::prelude::*;

verus! {

/// No notification, or the one given.
pub open spec fn zero_or_one(event: Option<PebblesEvent>) -> Seq<PebblesEvent> {
    match event {
        Some(e) => seq![e],
        None => Seq::empty(),
    }
}

impl GameState {
    /// The state in which a new game waits for its first request: set up
    /// from `config`, with the program's opening move played where the draw
    /// lets the program begin.
    pub open spec fn started(config: PebblesInit, first_draw: u32, move_draw: u32) -> GameState {
        GameState::fresh(config, first_draw).after_program(move_draw)
    }

    /// The notification of the program's opening move, where it begins.
    pub open spec fn opening_event(
        config: PebblesInit,
        first_draw: u32,
        move_draw: u32,
    ) -> Option<PebblesEvent> {
        GameState::fresh(config, first_draw).program_event(move_draw)
    }

    /// The state after the user has asked for `count` pebbles: unchanged
    /// where the game is over; otherwise the user's move, then the program's
    /// answering move unless the user has just won.
    pub open spec fn after_turn(self, count: u32, move_draw: u32) -> GameState {
        if self.live() {
            self.after_move(count).after_program(move_draw)
        } else {
            self
        }
    }

    /// The moves that such a request announces, in order: none where the
    /// game is over, otherwise the user's and then the program's, if any.
    pub open spec fn turn_moves(self, count: u32, move_draw: u32) -> Seq<PebblesEvent> {
        if self.live() {
            seq![self.move_event(count)] + zero_or_one(
                self.after_move(count).program_event(move_draw),
            )
        } else {
            Seq::empty()
        }
    }

    /// The answer to such a request: the standing result where the game is
    /// over, the plain acknowledgement otherwise.
    pub open spec fn turn_reply(self) -> Reply {
        match self.winner {
            Some(w) => Reply::Event(PebblesEvent::Won(w)),
            None => Reply::Turned,
        }
    }

    /// The state after the user has forfeited: unchanged where the game is
    /// over; otherwise the program has won, whoever was to move.
    pub open spec fn after_give_up(self) -> GameState {
        if self.live() {
            GameState { winner: Some(Player::Program), ..self }
        } else {
            self
        }
    }

    /// The answer to a forfeit: the standing result where the game is over,
    /// the program's win otherwise.
    pub open spec fn give_up_event(self) -> PebblesEvent {
        match self.winner {
            Some(w) => PebblesEvent::Won(w),
            None => PebblesEvent::Won(Player::Program),
        }
    }

    /// The state after a restart: a newly started game where the
    /// configuration is valid, and the old state otherwise.
    pub open spec fn after_restart(
        self,
        config: PebblesInit,
        first_draw: u32,
        move_draw: u32,
    ) -> GameState {
        if config.valid() {
            GameState::started(config, first_draw, move_draw)
        } else {
            self
        }
    }

    /// The state after any one request.
    pub open spec fn after_action(
        self,
        action: PebblesAction,
        first_draw: u32,
        move_draw: u32,
    ) -> GameState {
        match action {
            PebblesAction::Turn(count) => self.after_turn(count, move_draw),
            PebblesAction::GiveUp => self.after_give_up(),
            PebblesAction::Restart(config) => self.after_restart(config, first_draw, move_draw),
        }
    }

    /// The moves that a request announces, in order.
    pub open spec fn action_moves(
        self,
        action: PebblesAction,
        first_draw: u32,
        move_draw: u32,
    ) -> Seq<PebblesEvent> {
        match action {
            PebblesAction::Turn(count) => self.turn_moves(count, move_draw),
            PebblesAction::GiveUp => Seq::empty(),
            PebblesAction::Restart(config) => zero_or_one(
                GameState::opening_event(config, first_draw, move_draw),
            ),
        }
    }

    /// The answer to a request. A restart gets none.
    pub open spec fn action_reply(self, action: PebblesAction) -> Reply {
        match action {
            PebblesAction::Turn(_) => self.turn_reply(),
            PebblesAction::GiveUp => Reply::Event(self.give_up_event()),
            PebblesAction::Restart(_) => Reply::Nothing,
        }
    }

    /// The state after a run of requests, each with its two draws, taken in
    /// order.
    pub open spec fn after_actions(self, steps: Seq<(PebblesAction, u32, u32)>) -> GameState
        decreases steps.len(),
    {
        if steps.len() == 0 {
            self
        } else {
            let last = steps.last();
            self.after_actions(steps.drop_last()).after_action(last.0, last.1, last.2)
        }
    }
}

impl PebblesAction {
    /// What is wrong with the request, if anything: only a restart can be
    /// turned down, for its configuration.
    pub open spec fn fault(self) -> Option<ConfigError> {
        match self {
            PebblesAction::Restart(config) => config.fault(),
            _ => None,
        }
    }
}

} // verus!
