//! What follows from the steps of the three modes.
//!
//! Each law speaks of states `state` and `next` and a frame that a tick may
//! lead to, that is, of every outcome that [`State::tick`] allows.

use vstd::prelude::*;
use crate::constants::{GAP_SIZE_MIN, SCREEN_HEIGHT, SCREEN_WIDTH};
use crate::draw::Frame;
use crate::obstacle::gap_size;
use crate::state::{dead_ops, GameMode, Key, State};

verus! {

/// From the menu and from the end screen, the confirm key leads into a game
/// that starts from the reset state, and does not ask to leave.
pub proof fn lemma_confirm_starts_a_game(state: State, elapsed: i64, next: State, frame: Frame)
    requires
        state.mode == GameMode::Menu || state.mode == GameMode::End,
        state.tick_step(elapsed, Some(Key::Confirm), next, frame),
    ensures
        next.mode == GameMode::Playing,
        next.is_reset(),
        next.player.velocity == 0,
        next.wf(),
        !frame.quit,
{
}

/// The menu and the end screen change the state on no key but the confirm
/// key, whatever time has passed.
pub proof fn lemma_screens_wait_for_confirm(
    state: State,
    elapsed: i64,
    key: Option<Key>,
    next: State,
    frame: Frame,
)
    requires
        state.mode == GameMode::Menu || state.mode == GameMode::End,
        state.tick_step(elapsed, key, next, frame),
        key != Some(Key::Confirm),
    ensures
        next == state,
{
}

/// A frame of play either leaves the clock running and the dragon in its
/// column, or sets the clock to zero and moves the dragon one column on.
pub proof fn lemma_clock_or_step(
    state: State,
    elapsed: i64,
    key: Option<Key>,
    next: State,
    frame: Frame,
)
    requires
        state.mode == GameMode::Playing,
        state.can_tick(elapsed),
        state.tick_step(elapsed, key, next, frame),
    ensures
        state.physics_due(elapsed) ==> next.frame_time == 0 && next.player.x == state.player.x + 1,
        !state.physics_due(elapsed) ==> next.frame_time == state.frame_time + elapsed
            && next.player.x == state.player.x && next.player.y == state.player.y,
{
}

/// A dragon that is past the wall after a frame of play has scored exactly
/// one point, and the next wall stands one screen width ahead of it, with a
/// gap sized for the new score.
pub proof fn lemma_passing_scores_one(
    state: State,
    elapsed: i64,
    key: Option<Key>,
    next: State,
    frame: Frame,
)
    requires
        state.mode == GameMode::Playing,
        state.can_tick(elapsed),
        state.tick_step(elapsed, key, next, frame),
        next.player.x > state.obstacle.x,
    ensures
        next.score == state.score + 1,
        next.obstacle.x == next.player.x + SCREEN_WIDTH,
        next.obstacle.size == gap_size(next.score as int),
        next.obstacle.size >= GAP_SIZE_MIN,
{
}

/// A dragon whose row is beyond the screen height after a frame of play has
/// ended the game, and the end screen then shows the score that it reached
/// for as long as no new game is started.
pub proof fn lemma_fallen_dragon_ends_the_game(
    state: State,
    elapsed: i64,
    key: Option<Key>,
    next: State,
    frame: Frame,
    later_elapsed: i64,
    later_key: Option<Key>,
    later: State,
    later_frame: Frame,
)
    requires
        state.mode == GameMode::Playing,
        state.can_tick(elapsed),
        state.tick_step(elapsed, key, next, frame),
        next.player.spec_row() > SCREEN_HEIGHT,
        next.tick_step(later_elapsed, later_key, later, later_frame),
        later_key != Some(Key::Confirm),
    ensures
        next.mode == GameMode::End,
        next.score == state.score || next.score == state.score + 1,
        later_frame.ops() == dead_ops(next.score as int),
        later == next,
{
}

/// Whether the states are those of a run of ticks during play: each tick
/// stays within what the fields can hold and leads from one state to the
/// next.
pub open spec fn is_run_of_play(
    states: Seq<State>,
    elapsed: Seq<i64>,
    keys: Seq<Option<Key>>,
    frames: Seq<Frame>,
) -> bool {
    &&& states.len() == elapsed.len() + 1
    &&& keys.len() == elapsed.len()
    &&& frames.len() == elapsed.len()
    &&& forall|i: int|
        0 <= i < elapsed.len() ==> {
            &&& (#[trigger] states[i]).mode == GameMode::Playing
            &&& states[i].can_tick(elapsed[i])
            &&& states[i].tick_step(elapsed[i], keys[i], states[i + 1], frames[i])
        }
}

/// In a run of ticks during play of which only the last brings the clock
/// past the frame duration, the clock runs on through all ticks but the last,
/// the dragon stays in its column until the last tick and is one column on
/// after it, and the clock is then at zero: one physics step, and only one.
pub proof fn lemma_one_step_per_frame_duration(
    states: Seq<State>,
    elapsed: Seq<i64>,
    keys: Seq<Option<Key>>,
    frames: Seq<Frame>,
)
    requires
        is_run_of_play(states, elapsed, keys, frames),
        elapsed.len() >= 1,
        forall|i: int| 0 <= i < elapsed.len() - 1 ==> !(#[trigger] states[i]).physics_due(elapsed[i]),
        states[elapsed.len() - 1].physics_due(elapsed[elapsed.len() - 1]),
    ensures
        forall|i: int|
            0 <= i < elapsed.len() - 1 ==> (#[trigger] states[i + 1]).frame_time
                == states[i].frame_time + elapsed[i],
        forall|i: int| 0 <= i < elapsed.len() ==> (#[trigger] states[i]).player.x == states[0].player.x,
        states.last().player.x == states[0].player.x + 1,
        states.last().frame_time == 0,
{
    let last = elapsed.len() - 1;
    assert forall|i: int| 0 <= i < elapsed.len() implies (#[trigger] states[i]).player.x
        == states[0].player.x by {
        lemma_column_kept(states, elapsed, keys, frames, i);
    }
    assert(states[last].mode == GameMode::Playing);
    assert(states.last() == states[last + 1]);
    assert forall|i: int| 0 <= i < elapsed.len() - 1 implies (#[trigger] states[i + 1]).frame_time
        == states[i].frame_time + elapsed[i] by {
        assert(states[i].mode == GameMode::Playing);
    }
}

proof fn lemma_column_kept(
    states: Seq<State>,
    elapsed: Seq<i64>,
    keys: Seq<Option<Key>>,
    frames: Seq<Frame>,
    upto: int,
)
    requires
        is_run_of_play(states, elapsed, keys, frames),
        forall|i: int| 0 <= i < elapsed.len() - 1 ==> !(#[trigger] states[i]).physics_due(elapsed[i]),
        0 <= upto < elapsed.len(),
    ensures
        states[upto].player.x == states[0].player.x,
    decreases upto,
{
    if upto > 0 {
        lemma_column_kept(states, elapsed, keys, frames, upto - 1);
        assert(states[upto - 1].mode == GameMode::Playing);
    }
}

} // verus!
