use pebbles_game::engine::PebblesGame;
use pebbles_game::model::{DifficultyLevel, GameState, PebblesAction, PebblesInit, Player};

const PEBBLES_INIT: PebblesInit = PebblesInit {
    pebbles_count: 15,
    max_pebbles_per_turn: 4,
    difficulty: DifficultyLevel::Easy,
};

/// Every draw that these games are served with.
const DRAW: u32 = 2;

fn start(init: PebblesInit) -> PebblesGame {
    let (game, _) = PebblesGame::initialize(init, DRAW, DRAW).expect("valid configuration");
    game
}

#[test]
fn program_test() {
    let init = PEBBLES_INIT.clone();
    let game = start(init);
    let game_state: GameState = game.state();
    assert_eq!(game_state.pebbles_count, PEBBLES_INIT.pebbles_count);
}

#[test]
fn win_test() {
    let mut game = start(PEBBLES_INIT.clone());
    game.handle(PebblesAction::Turn(4), DRAW, DRAW).unwrap();
    game.handle(PebblesAction::Turn(4), DRAW, DRAW).unwrap();
    game.handle(PebblesAction::Turn(4), DRAW, DRAW).unwrap();
    game.handle(PebblesAction::Turn(4), DRAW, DRAW).unwrap();
    let state: GameState = game.state();
    assert_eq!(state.winner, Some(Player::User));
}

#[test]
fn give_up() {
    let mut game = start(PEBBLES_INIT.clone());
    game.handle(PebblesAction::GiveUp, DRAW, DRAW).unwrap();
    let state: GameState = game.state();
    assert_eq!(state.winner, Some(Player::Program));
}

#[test]
fn restart() {
    let mut game = start(PEBBLES_INIT.clone());
    game.handle(PebblesAction::Restart(PEBBLES_INIT), DRAW, DRAW).unwrap();
    let game_state: GameState = game.state();
    assert_eq!(game_state.pebbles_count, PEBBLES_INIT.pebbles_count);
    assert_eq!(
        game_state.max_pebbles_per_turn,
        PEBBLES_INIT.max_pebbles_per_turn
    );
    assert_eq!(game_state.difficulty, PEBBLES_INIT.difficulty);
    assert_eq!(game_state.pebbles_remaining, game_state.pebbles_count);
}
