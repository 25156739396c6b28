//! What holds of every game, whatever is asked of it and whatever is drawn.

use crate::model::{DifficultyLevel, GameState, PebblesAction, PebblesEvent, PebblesInit, Player, Reply};
use crate::rules::{clamp_count, random_count};
use vstd::prelude::*;

verus! {

/// A run of requests holds no restart.
pub open spec fn no_restart(steps: Seq<(PebblesAction, u32, u32)>) -> bool {
    forall|i: int| 0 <= i < steps.len() ==> !((#[trigger] steps[i]).0 is Restart)
}

/// The count that a move takes is the requested count brought into
/// `1..=max`: a request inside the range is taken as it is, one below it
/// takes one pebble, one above it takes `max`.
pub proof fn lemma_clamp_count_in_range(count: u32, max: u32)
    requires
        max >= 1,
    ensures
        1 <= clamp_count(count, max) <= max,
        1 <= count <= max ==> clamp_count(count, max) == count,
        count < 1 ==> clamp_count(count, max) == 1,
        count > max ==> clamp_count(count, max) == max,
{
}

/// A move announces the clamped count for whoever moved, and takes exactly
/// that many pebbles wherever the pile holds as many; a smaller pile is
/// emptied.
pub proof fn lemma_move_takes_clamped_count(state: GameState, count: u32)
    requires
        state.max_pebbles_per_turn >= 1,
    ensures
        state.move_event(count) == PebblesEvent::CounterTurn(
            state.first_player,
            clamp_count(count, state.max_pebbles_per_turn),
        ),
        state.pebbles_remaining >= clamp_count(count, state.max_pebbles_per_turn)
            ==> state.after_move(count).pebbles_remaining == state.pebbles_remaining - clamp_count(
            count,
            state.max_pebbles_per_turn,
        ),
        state.pebbles_remaining < clamp_count(count, state.max_pebbles_per_turn)
            ==> state.after_move(count).pebbles_remaining == 0,
{
}

/// A turn in a running game announces the user's move first, with the
/// clamped count, and whatever the program answers the user's pebbles have
/// left the pile.
pub proof fn lemma_turn_takes_clamped_count(state: GameState, count: u32, move_draw: u32)
    requires
        state.wf(),
        state.live(),
    ensures
        1 <= state.turn_moves(count, move_draw).len() <= 2,
        state.turn_moves(count, move_draw)[0] == PebblesEvent::CounterTurn(
            Player::User,
            clamp_count(count, state.max_pebbles_per_turn),
        ),
        state.pebbles_remaining >= clamp_count(count, state.max_pebbles_per_turn)
            ==> state.after_turn(count, move_draw).pebbles_remaining <= state.pebbles_remaining
            - clamp_count(count, state.max_pebbles_per_turn),
        state.pebbles_remaining <= clamp_count(count, state.max_pebbles_per_turn)
            ==> state.after_turn(count, move_draw).pebbles_remaining == 0,
        state.pebbles_remaining <= clamp_count(count, state.max_pebbles_per_turn)
            ==> state.after_turn(count, move_draw).winner == Some(Player::User),
{
}

/// Whatever is drawn, the random count is a legal move.
pub proof fn lemma_random_count_in_range(draw: u32, max: u32)
    requires
        max >= 1,
    ensures
        1 <= random_count(draw, max) <= max,
        random_count(draw, max) == draw % max + 1,
{
}

/// The count that the program asks for never exceeds the turn limit.
pub proof fn lemma_program_choice_within_limit(state: GameState, draw: u32)
    requires
        state.max_pebbles_per_turn >= 1,
    ensures
        state.program_choice(draw) <= state.max_pebbles_per_turn,
        state.difficulty == DifficultyLevel::Easy ==> state.program_choice(draw) >= 1,
{
}

/// On `Hard` the program may ask for no pebble at all: where the pile is a
/// multiple of the turn limit and not of the limit plus one. Its move then
/// takes one pebble.
pub proof fn lemma_hard_choice_of_zero_takes_one(state: GameState, draw: u32)
    requires
        state.max_pebbles_per_turn >= 1,
        state.difficulty == DifficultyLevel::Hard,
        state.pebbles_remaining % state.max_pebbles_per_turn == 0,
        (state.pebbles_remaining as int) % (state.max_pebbles_per_turn + 1) != 0,
    ensures
        state.program_choice(draw) == 0,
        state.move_event(state.program_choice(draw)) == PebblesEvent::CounterTurn(
            state.first_player,
            1,
        ),
        state.pebbles_remaining >= 1 ==> state.after_move(
            state.program_choice(draw),
        ).pebbles_remaining == state.pebbles_remaining - 1,
{
}

/// A well-formed game is either running or over, never both: running with
/// no winner and pebbles left, or over with one winner for good.
pub proof fn lemma_running_or_over(state: GameState)
    requires
        state.wf(),
    ensures
        state.live() <==> state.winner is None,
        !state.live() <==> state.winner == Some(Player::User) || state.winner == Some(
            Player::Program,
        ),
        state.live() ==> state.pebbles_remaining >= 1,
        state.pebbles_remaining == 0 ==> !state.live(),
{
}

/// A newly started game is well formed.
pub proof fn lemma_started_is_wf(config: PebblesInit, first_draw: u32, move_draw: u32)
    requires
        config.valid(),
    ensures
        GameState::started(config, first_draw, move_draw).wf(),
{
}

/// Every request leaves a well-formed game well formed.
pub proof fn lemma_action_keeps_wf(
    state: GameState,
    action: PebblesAction,
    first_draw: u32,
    move_draw: u32,
)
    requires
        state.wf(),
    ensures
        state.after_action(action, first_draw, move_draw).wf(),
{
}

/// No turn and no forfeit adds a pebble to the pile, and none changes the
/// size that the game started with, its turn limit or its difficulty.
pub proof fn lemma_action_never_adds_pebbles(
    state: GameState,
    action: PebblesAction,
    first_draw: u32,
    move_draw: u32,
)
    requires
        state.wf(),
        !(action is Restart),
    ensures
        0 <= state.after_action(action, first_draw, move_draw).pebbles_remaining
            <= state.pebbles_remaining,
        state.after_action(action, first_draw, move_draw).pebbles_count == state.pebbles_count,
        state.after_action(action, first_draw, move_draw).max_pebbles_per_turn
            == state.max_pebbles_per_turn,
        state.after_action(action, first_draw, move_draw).difficulty == state.difficulty,
{
}

/// A turn that is played takes at least one pebble.
pub proof fn lemma_played_turn_takes_a_pebble(state: GameState, count: u32, move_draw: u32)
    requires
        state.wf(),
        state.live(),
    ensures
        state.after_turn(count, move_draw).pebbles_remaining < state.pebbles_remaining,
{
}

/// Once a game is over, a turn or a forfeit changes nothing in its state,
/// announces no move, and is answered with the standing result.
pub proof fn lemma_finished_game_ignores_action(
    state: GameState,
    action: PebblesAction,
    first_draw: u32,
    move_draw: u32,
)
    requires
        !state.live(),
        !(action is Restart),
    ensures
        state.after_action(action, first_draw, move_draw) == state,
        state.action_moves(action, first_draw, move_draw) == Seq::<PebblesEvent>::empty(),
        state.action_reply(action) == Reply::Event(PebblesEvent::Won(state.winner->Some_0)),
{
}

/// A forfeit in a running game makes the program the winner, whoever was to
/// move, and touches nothing else.
pub proof fn lemma_give_up_credits_program(state: GameState)
    requires
        state.live(),
    ensures
        state.after_give_up().winner == Some(Player::Program),
        state.after_give_up() == (GameState { winner: Some(Player::Program), ..state }),
        state.give_up_event() == PebblesEvent::Won(Player::Program),
{
}

/// A game that is started or restarted on an even first draw waits for the
/// user with the whole pile and no winner.
pub proof fn lemma_restart_with_user_first(
    state: GameState,
    config: PebblesInit,
    first_draw: u32,
    move_draw: u32,
)
    requires
        config.valid(),
        first_draw % 2 == 0,
    ensures
        GameState::started(config, first_draw, move_draw) == GameState::fresh(config, first_draw),
        GameState::opening_event(config, first_draw, move_draw) is None,
        state.after_restart(config, first_draw, move_draw).pebbles_remaining
            == config.pebbles_count,
        state.after_restart(config, first_draw, move_draw).pebbles_count == config.pebbles_count,
        state.after_restart(config, first_draw, move_draw).winner is None,
        state.after_restart(config, first_draw, move_draw).first_player == Player::User,
{
}

/// A game that is started or restarted on an odd first draw has the
/// program's opening move behind it: the pile is smaller than configured.
pub proof fn lemma_restart_with_program_first(
    state: GameState,
    config: PebblesInit,
    first_draw: u32,
    move_draw: u32,
)
    requires
        config.valid(),
        first_draw % 2 == 1,
    ensures
        GameState::opening_event(config, first_draw, move_draw) is Some,
        state.after_restart(config, first_draw, move_draw).pebbles_remaining
            < config.pebbles_count,
        state.after_restart(config, first_draw, move_draw).pebbles_count == config.pebbles_count,
{
}

/// Every run of requests leaves a well-formed game well formed: at all
/// times the pile is within the size it started with, and the game is either
/// running, with pebbles left and the user to move, or over, with a winner.
pub proof fn lemma_actions_keep_wf(state: GameState, steps: Seq<(PebblesAction, u32, u32)>)
    requires
        state.wf(),
    ensures
        state.after_actions(steps).wf(),
    decreases steps.len(),
{
    if steps.len() > 0 {
        let last = steps.last();
        lemma_actions_keep_wf(state, steps.drop_last());
        lemma_action_keeps_wf(state.after_actions(steps.drop_last()), last.0, last.1, last.2);
    }
}

/// Over any run of turns and forfeits the pile never grows, and it never
/// drops below zero.
pub proof fn lemma_pile_never_grows(state: GameState, steps: Seq<(PebblesAction, u32, u32)>)
    requires
        state.wf(),
        no_restart(steps),
    ensures
        0 <= state.after_actions(steps).pebbles_remaining <= state.pebbles_remaining,
        state.after_actions(steps).pebbles_count == state.pebbles_count,
    decreases steps.len(),
{
    if steps.len() > 0 {
        let last = steps.last();
        let before = state.after_actions(steps.drop_last());
        lemma_pile_never_grows(state, steps.drop_last());
        lemma_actions_keep_wf(state, steps.drop_last());
        lemma_action_never_adds_pebbles(before, last.0, last.1, last.2);
    }
}

/// Once a game has a winner, no run of turns and forfeits changes the
/// winner, nor anything else in the state: only a restart does.
pub proof fn lemma_winner_is_final(state: GameState, steps: Seq<(PebblesAction, u32, u32)>)
    requires
        !state.live(),
        no_restart(steps),
    ensures
        state.after_actions(steps) == state,
    decreases steps.len(),
{
    if steps.len() > 0 {
        let last = steps.last();
        lemma_winner_is_final(state, steps.drop_last());
        lemma_finished_game_ignores_action(state, last.0, last.1, last.2);
    }
}

} // verus!
