//! The vocabulary of the game: players, difficulty, configuration, requests
//! and notifications, and the state of one game.

use vstd::prelude::*;

verus! {

/// One of the two sides of a game.
#[derive(Clone, Copy, Debug, PartialEq, Eq, Structural)]
pub enum Player {
    User,
    Program,
}

impl Player {
    /// The other side.
    pub open spec fn other(self) -> Player {
        match self {
            Player::User => Player::Program,
            Player::Program => Player::User,
        }
    }

    /// The other side.
    pub fn opponent(self) -> (p: Player)
        ensures
            p == self.other(),
    {
        match self {
            Player::User => Player::Program,
            Player::Program => Player::User,
        }
    }
}

/// How the program picks its moves. Fixed for the whole game.
#[derive(Clone, Copy, Debug, PartialEq, Eq, Structural)]
pub enum DifficultyLevel {
    /// Every move is drawn at random.
    Easy,
    /// The program steers the pile towards a residue that loses for the user.
    Hard,
}

/// What the caller chooses when a game is set up.
#[derive(Clone, Copy, Debug, PartialEq, Eq, Structural)]
pub struct PebblesInit {
    pub difficulty: DifficultyLevel,
    pub pebbles_count: u32,
    pub max_pebbles_per_turn: u32,
}

/// A request to the game.
#[derive(Clone, Copy, Debug, PartialEq, Eq, Structural)]
pub enum PebblesAction {
    /// The user asks to take this many pebbles.
    Turn(u32),
    /// The user forfeits.
    GiveUp,
    /// Throw the running game away and set up a new one.
    Restart(PebblesInit),
}

/// A notification for whoever sent the request.
#[derive(Clone, Copy, Debug, PartialEq, Eq, Structural)]
pub enum PebblesEvent {
    /// The named side has just taken this many pebbles.
    CounterTurn(Player, u32),
    /// The named side has won.
    Won(Player),
}

/// The state of one game.
///
/// `first_player` is whoever moves next, not whoever opened the game.
#[derive(Clone, Copy, Debug, PartialEq, Eq)]
pub struct GameState {
    pub pebbles_count: u32,
    pub max_pebbles_per_turn: u32,
    pub pebbles_remaining: u32,
    pub difficulty: DifficultyLevel,
    pub first_player: Player,
    pub winner: Option<Player>,
}

/// Why a configuration was turned down.
#[derive(Clone, Copy, Debug, PartialEq, Eq, Structural)]
pub enum ConfigError {
    /// `max_pebbles_per_turn` is zero: no move would be legal.
    ZeroMaxPebblesPerTurn,
    /// `pebbles_count` is zero: there is nothing to play for.
    ZeroPebblesCount,
}

/// The direct answer to a request, after its notifications.
#[derive(Clone, Copy, Debug, PartialEq, Eq, Structural)]
pub enum Reply {
    /// The request is not answered.
    Nothing,
    /// The plain acknowledgement of a turn that was played.
    Turned,
    /// The answer is a notification.
    Event(PebblesEvent),
}

/// What one request produced.
#[derive(Debug, PartialEq, Eq)]
pub struct Outcome {
    /// The moves that were played, in the order in which they are announced.
    pub moves: Vec<PebblesEvent>,
    /// The answer that follows them.
    pub reply: Reply,
}

} // verus!
