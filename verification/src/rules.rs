//! The rules of the game, stated on plain values: what a configuration must
//! satisfy, what one move does to a state, and how the program picks its move.

use crate::model::{ConfigError, DifficultyLevel, GameState, PebblesEvent, PebblesInit, Player};
use vstd::prelude::*;

verus! {

/// The number of pebbles that a request for `count` takes: `count` brought
/// into `1..=max`. Nothing is rejected; a request outside the range is
/// corrected silently.
pub open spec fn clamp_count(count: u32, max: u32) -> u32 {
    if count < 1 {
        1
    } else if count > max {
        max
    } else {
        count
    }
}

/// A random draw turned into a count in `1..=max`.
pub open spec fn random_count(draw: u32, max: u32) -> u32 {
    (draw % max + 1) as u32
}

/// Who moves first: the user on an even draw, the program on an odd one.
pub open spec fn first_mover(draw: u32) -> Player {
    if draw % 2 == 0 {
        Player::User
    } else {
        Player::Program
    }
}

impl PebblesInit {
    /// What is wrong with this configuration, if anything. A zero turn limit
    /// is reported before an empty pile.
    pub open spec fn fault(self) -> Option<ConfigError> {
        if self.max_pebbles_per_turn == 0 {
            Some(ConfigError::ZeroMaxPebblesPerTurn)
        } else if self.pebbles_count == 0 {
            Some(ConfigError::ZeroPebblesCount)
        } else {
            None
        }
    }

    /// A game can be set up from this configuration.
    pub open spec fn valid(self) -> bool {
        self.max_pebbles_per_turn >= 1 && self.pebbles_count >= 1
    }

    /// Accepts the configuration, or says what is wrong with it.
    pub fn validate(&self) -> (r: Result<(), ConfigError>)
        ensures
            r is Ok <==> self.valid(),
            r matches Err(e) ==> self.fault() == Some(e),
    {
        if self.max_pebbles_per_turn == 0 {
            Err(ConfigError::ZeroMaxPebblesPerTurn)
        } else if self.pebbles_count == 0 {
            Err(ConfigError::ZeroPebblesCount)
        } else {
            Ok(())
        }
    }
}

impl GameState {
    /// The game is still running.
    pub open spec fn live(self) -> bool {
        self.winner is None
    }

    /// What holds of a game between two requests.
    ///
    /// The pile never exceeds the size it started with. A running game has pebbles
    /// left and waits for the user. A game that ended on the last pebble was
    /// won by whoever took it, and a game that ended with pebbles left was
    /// forfeited to the program.
    pub open spec fn wf(self) -> bool {
        &&& self.max_pebbles_per_turn >= 1
        &&& self.pebbles_count >= 1
        &&& self.pebbles_remaining <= self.pebbles_count
        &&& match self.winner {
            None => self.pebbles_remaining >= 1 && self.first_player == Player::User,
            Some(w) => if self.pebbles_remaining == 0 {
                w == self.first_player
            } else {
                w == Player::Program && self.first_player == Player::User
            },
        }
    }

    /// The state in which a game starts, before anyone has moved.
    pub open spec fn fresh(config: PebblesInit, first_draw: u32) -> GameState {
        GameState {
            pebbles_count: config.pebbles_count,
            max_pebbles_per_turn: config.max_pebbles_per_turn,
            pebbles_remaining: config.pebbles_count,
            difficulty: config.difficulty,
            first_player: first_mover(first_draw),
            winner: None,
        }
    }

    /// The state after whoever is next has asked for `count` pebbles.
    ///
    /// The clamped count leaves the pile, which stops at zero. Whoever
    /// empties the pile wins; otherwise the turn passes to the other side.
    pub open spec fn after_move(self, count: u32) -> GameState {
        let taken = clamp_count(count, self.max_pebbles_per_turn);
        if self.pebbles_remaining > taken {
            GameState {
                pebbles_remaining: (self.pebbles_remaining - taken) as u32,
                first_player: self.first_player.other(),
                ..self
            }
        } else {
            GameState { pebbles_remaining: 0, winner: Some(self.first_player), ..self }
        }
    }

    /// The notification of that move: who moved, and the clamped count.
    pub open spec fn move_event(self, count: u32) -> PebblesEvent {
        PebblesEvent::CounterTurn(self.first_player, clamp_count(count, self.max_pebbles_per_turn))
    }

    /// The count that the program asks for, given a random draw.
    ///
    /// On `Easy` it is the random count. On `Hard` it is the random count
    /// where the pile is a multiple of `max_pebbles_per_turn + 1`, and the
    /// pile modulo `max_pebbles_per_turn` otherwise. That can be zero; the
    /// move then takes one pebble, as any request below one does.
    pub open spec fn program_choice(self, draw: u32) -> u32 {
        match self.difficulty {
            DifficultyLevel::Easy => random_count(draw, self.max_pebbles_per_turn),
            DifficultyLevel::Hard => if (self.pebbles_remaining as int) % (self.max_pebbles_per_turn
                + 1) == 0 {
                random_count(draw, self.max_pebbles_per_turn)
            } else {
                (self.pebbles_remaining % self.max_pebbles_per_turn) as u32
            },
        }
    }

    /// The program is to move: the game is running and it is the program's turn.
    pub open spec fn program_to_move(self) -> bool {
        self.live() && self.first_player == Player::Program
    }

    /// The state after the program has moved, where it is to move.
    pub open spec fn after_program(self, draw: u32) -> GameState {
        if self.program_to_move() {
            self.after_move(self.program_choice(draw))
        } else {
            self
        }
    }

    /// The notification of the program's move, where it is to move.
    pub open spec fn program_event(self, draw: u32) -> Option<PebblesEvent> {
        if self.program_to_move() {
            Some(self.move_event(self.program_choice(draw)))
        } else {
            None
        }
    }

    /// The count that the program asks for, given a random draw.
    pub fn program_count(&self, draw: u32) -> (count: u32)
        requires
            self.max_pebbles_per_turn >= 1,
        ensures
            count == self.program_choice(draw),
    {
        let random_count: u32 = draw % self.max_pebbles_per_turn + 1;
        match self.difficulty {
            DifficultyLevel::Easy => random_count,
            DifficultyLevel::Hard => {
                let cycle: u64 = self.max_pebbles_per_turn as u64 + 1;
                if self.pebbles_remaining as u64 % cycle == 0 {
                    random_count
                } else {
                    self.pebbles_remaining % self.max_pebbles_per_turn
                }
            },
        }
    }

    /// Plays one move in a running game, for whoever is next, and returns its
    /// notification.
    ///
    /// `count` is brought into `1..=max_pebbles_per_turn` and leaves the
    /// pile, which stops at zero. Whoever empties the pile wins; otherwise
    /// the turn passes to the other side.
    pub fn turn(&mut self, count: u32) -> (event: PebblesEvent)
        requires
            old(self).max_pebbles_per_turn >= 1,
            old(self).live(),
        ensures
            *final(self) == old(self).after_move(count),
            event == old(self).move_event(count),
    {
        let count: u32 = if count < 1 {
            1
        } else if count > self.max_pebbles_per_turn {
            self.max_pebbles_per_turn
        } else {
            count
        };
        self.pebbles_remaining = self.pebbles_remaining.saturating_sub(count);
        let event = PebblesEvent::CounterTurn(self.first_player, count);
        if self.pebbles_remaining == 0 {
            self.winner = Some(self.first_player);
        } else {
            self.first_player = self.first_player.opponent();
        }
        event
    }

    /// Lets the program move where it is to move, with the count that it
    /// picks from `draw`, and does nothing otherwise.
    pub fn turn_if_first_player_is_program(&mut self, draw: u32) -> (event: Option<
        PebblesEvent,
    >)
        requires
            old(self).max_pebbles_per_turn >= 1,
        ensures
            *final(self) == old(self).after_program(draw),
            event == old(self).program_event(draw),
    {
        if self.winner.is_none() && self.first_player == Player::Program {
            let count: u32 = self.program_count(draw);
            Some(self.turn(count))
        } else {
            None
        }
    }
}

} // verus!
