//! The game engine: the owner of the one state of a game, and the requests
//! that it serves.
//!
//! The engine draws nothing itself. Whoever hosts it draws the random
//! numbers and hands them in with each request, so that every request is a
//! function of the state and its arguments.

use crate::model::{
    ConfigError, GameState, Outcome, PebblesAction, PebblesEvent, PebblesInit, Player, Reply,
};
use vstd::prelude::*;

verus! {

/// A game in progress or over. Its state is read through [`PebblesGame::state`]
/// and changes only through the requests below, so it is well formed at all
/// times.
#[derive(Debug)]
pub struct PebblesGame {
    state: GameState,
}

impl View for PebblesGame {
    type V = GameState;

    closed spec fn view(&self) -> GameState {
        self.state
    }
}

impl PebblesGame {
    #[verifier::type_invariant]
    spec fn inv(self) -> bool {
        self.state.wf()
    }

    /// Sets up a game.
    ///
    /// A configuration with a zero turn limit or an empty pile is turned
    /// down. Otherwise `first_draw` decides who begins, and where that is the
    /// program, its opening move is played with `move_draw` and returned.
    pub fn initialize(config: PebblesInit, first_draw: u32, move_draw: u32) -> (r: Result<
        (PebblesGame, Option<PebblesEvent>),
        ConfigError,
    >)
        ensures
            r is Ok <==> config.valid(),
            r matches Ok(started) ==> started.0@ == GameState::started(
                config,
                first_draw,
                move_draw,
            ),
            r matches Ok(started) ==> started.0@.wf(),
            r matches Ok(started) ==> started.1 == GameState::opening_event(
                config,
                first_draw,
                move_draw,
            ),
            r matches Err(e) ==> config.fault() == Some(e),
    {
        match config.validate() {
            Err(e) => Err(e),
            Ok(()) => {
                let mut state = GameState {
                    pebbles_count: config.pebbles_count,
                    max_pebbles_per_turn: config.max_pebbles_per_turn,
                    pebbles_remaining: config.pebbles_count,
                    difficulty: config.difficulty,
                    first_player: if first_draw % 2 == 0 {
                        Player::User
                    } else {
                        Player::Program
                    },
                    winner: None,
                };
                let opening = state.turn_if_first_player_is_program(move_draw);
                Ok((PebblesGame { state }, opening))
            },
        }
    }

    /// A snapshot of the state as the last request left it.
    pub fn state(&self) -> (snapshot: GameState)
        ensures
            snapshot == self@,
            snapshot.wf(),
    {
        proof {
            use_type_invariant(self);
        }
        self.state
    }

    /// Serves the user's request for `count` pebbles.
    ///
    /// Where the game is over nothing changes and the standing result is the
    /// answer. Otherwise the user's move is played, with `count` brought into
    /// `1..=max_pebbles_per_turn`, and unless it wins the game the program
    /// answers with a move of its own, picked with `move_draw`.
    pub fn apply_turn(&mut self, count: u32, move_draw: u32) -> (outcome: Outcome)
        ensures
            final(self)@ == old(self)@.after_turn(count, move_draw),
            final(self)@.wf(),
            outcome.moves@ == old(self)@.turn_moves(count, move_draw),
            outcome.reply == old(self)@.turn_reply(),
    {
        proof {
            use_type_invariant(&*self);
        }
        let mut moves: Vec<PebblesEvent> = Vec::new();
        match self.state.winner {
            Some(w) => Outcome { moves, reply: Reply::Event(PebblesEvent::Won(w)) },
            None => {
                let mut next = self.state;
                let played = next.turn(count);
                moves.push(played);
                if let Some(answer) = next.turn_if_first_player_is_program(move_draw) {
                    moves.push(answer);
                }
                self.state = next;
                Outcome { moves, reply: Reply::Turned }
            },
        }
    }

    /// Serves the user's forfeit.
    ///
    /// Where the game is over nothing changes and the standing result is the
    /// answer. Otherwise the program wins, whoever was to move.
    pub fn give_up(&mut self) -> (event: PebblesEvent)
        ensures
            final(self)@ == old(self)@.after_give_up(),
            final(self)@.wf(),
            event == old(self)@.give_up_event(),
    {
        proof {
            use_type_invariant(&*self);
        }
        match self.state.winner {
            Some(w) => PebblesEvent::Won(w),
            None => {
                let mut next = self.state;
                next.winner = Some(Player::Program);
                self.state = next;
                PebblesEvent::Won(Player::Program)
            },
        }
    }

    /// Throws the game away and sets up a new one, as [`PebblesGame::initialize`]
    /// does. A configuration that is turned down leaves the old game as it is.
    pub fn restart(&mut self, config: PebblesInit, first_draw: u32, move_draw: u32) -> (r: Result<
        Option<PebblesEvent>,
        ConfigError,
    >)
        ensures
            r is Ok <==> config.valid(),
            final(self)@ == old(self)@.after_restart(config, first_draw, move_draw),
            final(self)@.wf(),
            r matches Ok(opening) ==> opening == GameState::opening_event(
                config,
                first_draw,
                move_draw,
            ),
            r matches Err(e) ==> config.fault() == Some(e),
    {
        proof {
            use_type_invariant(&*self);
        }
        match PebblesGame::initialize(config, first_draw, move_draw) {
            Err(e) => Err(e),
            Ok((game, opening)) => {
                *self = game;
                Ok(opening)
            },
        }
    }

    /// Serves any one request, and says what to announce and what to answer.
    ///
    /// Only a restart with a configuration that is turned down fails, and it
    /// leaves the game as it is.
    pub fn handle(&mut self, action: PebblesAction, first_draw: u32, move_draw: u32) -> (r: Result<
        Outcome,
        ConfigError,
    >)
        ensures
            r is Ok <==> action.fault() is None,
            final(self)@ == old(self)@.after_action(action, first_draw, move_draw),
            final(self)@.wf(),
            r matches Ok(outcome) ==> outcome.moves@ == old(self)@.action_moves(
                action,
                first_draw,
                move_draw,
            ),
            r matches Ok(outcome) ==> outcome.reply == old(self)@.action_reply(action),
            r matches Err(e) ==> action.fault() == Some(e),
    {
        match action {
            PebblesAction::Turn(count) => Ok(self.apply_turn(count, move_draw)),
            PebblesAction::GiveUp => {
                let event = self.give_up();
                Ok(Outcome { moves: Vec::new(), reply: Reply::Event(event) })
            },
            PebblesAction::Restart(config) => {
                match self.restart(config, first_draw, move_draw) {
                    Err(e) => Err(e),
                    Ok(opening) => {
                        let mut moves: Vec<PebblesEvent> = Vec::new();
                        if let Some(event) = opening {
                            moves.push(event);
                        }
                        Ok(Outcome { moves, reply: Reply::Nothing })
                    },
                }
            },
        }
    }
}

} // verus!
