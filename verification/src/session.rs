//! The level-timer state machine: one tick per frame advances the
//! elapsed time, throttles the readout redraw to whole-second changes,
//! and, once the session has expired, commits the score and asks for the
//! transition back to the main menu.

use crate::high_scores::spec_update_if_greater;
use crate::time::whole_seconds;
use crate::world::GameWorld;
use crate::world::readout_view;
use crate::world::running_readout_string;
use crate::world::running_readout_text;
use vstd::prelude::*;

verus! {

/// What a state hands back to the state-management layer after a tick or
/// an input event: stay in the current state, or replace it with the
/// main menu.
#[derive(Clone, Copy, Debug, PartialEq, Eq, Structural)]
pub enum TransitionDecision {
    Stay,
    ReplaceMainMenu,
}

/// Whether a tick of `delta` milliseconds moves the elapsed time across
/// a whole-second boundary. Only such ticks redraw the readout.
pub open spec fn crossed_whole_second(elapsed_millis: int, delta_millis: int) -> bool {
    (elapsed_millis + delta_millis) / 1000 > elapsed_millis / 1000
}

/// The session is over once the elapsed time has reached the maximum.
/// The check reads the pre-tick value, so the transition comes one frame
/// after the boundary is first crossed, never on the crossing frame.
pub open spec fn session_expired(elapsed_millis: int, max_millis: int) -> bool {
    elapsed_millis >= max_millis
}

/// The decision a tick returns, read off the pre-tick elapsed time.
pub open spec fn tick_decision(elapsed_millis: int, max_millis: int) -> TransitionDecision {
    if session_expired(elapsed_millis, max_millis) {
        TransitionDecision::ReplaceMainMenu
    } else {
        TransitionDecision::Stay
    }
}

/// What one tick does to the readout text: an expiring tick deletes the
/// readout; a tick that crosses a whole second rewrites it with the new
/// elapsed time; any other tick leaves it untouched.
pub open spec fn tick_readout(
    readout: Option<Seq<char>>,
    elapsed_millis: int,
    delta_millis: int,
    max_millis: int,
) -> Option<Seq<char>> {
    if session_expired(elapsed_millis, max_millis) {
        None
    } else if crossed_whole_second(elapsed_millis, delta_millis) && readout is Some {
        Some(running_readout_text(elapsed_millis + delta_millis, max_millis))
    } else {
        readout
    }
}

/// What one tick does to the high-score map: exactly the expiring tick
/// commits the score through "set if greater".
pub open spec fn tick_high_scores(
    scores: Map<Seq<char>, u64>,
    elapsed_millis: int,
    max_millis: int,
    key: Seq<char>,
    score: u64,
) -> Map<Seq<char>, u64> {
    if session_expired(elapsed_millis, max_millis) {
        spec_update_if_greater(scores, key, score)
    } else {
        scores
    }
}

/// The session state a tick acts on: the elapsed time, the readout text
/// (where a readout exists), and the high-score map.
pub struct SessionModel {
    pub elapsed_millis: int,
    pub readout: Option<Seq<char>>,
    pub high_scores: Map<Seq<char>, u64>,
}

/// One tick of the state machine on the abstract session state.
pub open spec fn session_step(
    state: SessionModel,
    delta_millis: u64,
    max_millis: int,
    key: Seq<char>,
    score: u64,
) -> SessionModel {
    SessionModel {
        elapsed_millis: state.elapsed_millis + delta_millis,
        readout: tick_readout(state.readout, state.elapsed_millis, delta_millis as int, max_millis),
        high_scores: tick_high_scores(
            state.high_scores,
            state.elapsed_millis,
            max_millis,
            key,
            score,
        ),
    }
}

/// The session state after a whole sequence of ticks, applied in order.
pub open spec fn session_run(
    state: SessionModel,
    deltas: Seq<u64>,
    max_millis: int,
    key: Seq<char>,
    score: u64,
) -> SessionModel
    decreases deltas.len(),
{
    if deltas.len() == 0 {
        state
    } else {
        session_step(
            session_run(state, deltas.drop_last(), max_millis, key, score),
            deltas.last(),
            max_millis,
            key,
            score,
        )
    }
}

/// The sum of a sequence of tick deltas, in milliseconds.
pub open spec fn sum_millis(deltas: Seq<u64>) -> int
    decreases deltas.len(),
{
    if deltas.len() == 0 {
        0
    } else {
        sum_millis(deltas.drop_last()) + deltas.last()
    }
}

/// After any sequence of ticks, the elapsed time is the starting value
/// plus the sum of all deltas applied so far.
pub proof fn lemma_elapsed_time_is_delta_sum(
    state: SessionModel,
    deltas: Seq<u64>,
    max_millis: int,
    key: Seq<char>,
    score: u64,
)
    ensures
        session_run(state, deltas, max_millis, key, score).elapsed_millis == state.elapsed_millis
            + sum_millis(deltas),
    decreases deltas.len(),
{
    if deltas.len() > 0 {
        lemma_elapsed_time_is_delta_sum(state, deltas.drop_last(), max_millis, key, score);
    }
}

/// Monotonicity: deltas are non-negative, so along any sequence of ticks
/// the elapsed time never decreases from one prefix to a longer one.
pub proof fn lemma_elapsed_time_monotonic(
    state: SessionModel,
    deltas: Seq<u64>,
    max_millis: int,
    key: Seq<char>,
    score: u64,
    shorter: int,
    longer: int,
)
    requires
        0 <= shorter <= longer <= deltas.len(),
    ensures
        session_run(state, deltas.take(shorter), max_millis, key, score).elapsed_millis
            <= session_run(state, deltas.take(longer), max_millis, key, score).elapsed_millis,
    decreases longer - shorter,
{
    if shorter < longer {
        lemma_elapsed_time_monotonic(state, deltas, max_millis, key, score, shorter, longer - 1);
        assert(deltas.take(longer).drop_last() =~= deltas.take(longer - 1));
    }
}

/// Before the first expiring tick, every tick returns `Stay` and leaves
/// the high-score map untouched.
proof fn lemma_run_before_expiry(
    state: SessionModel,
    deltas: Seq<u64>,
    max_millis: int,
    key: Seq<char>,
    score: u64,
    ticks: int,
)
    requires
        0 <= ticks <= deltas.len(),
        forall|i: int|
            0 <= i < ticks ==> state.elapsed_millis + sum_millis(#[trigger] deltas.take(i))
                < max_millis,
    ensures
        session_run(state, deltas.take(ticks), max_millis, key, score).high_scores
            == state.high_scores,
    decreases ticks,
{
    if ticks > 0 {
        lemma_run_before_expiry(state, deltas, max_millis, key, score, ticks - 1);
        assert(deltas.take(ticks).drop_last() =~= deltas.take(ticks - 1));
        lemma_elapsed_time_is_delta_sum(state, deltas.take(ticks - 1), max_millis, key, score);
    }
}

/// Expiry boundary: given that tick `expiring` is the first whose
/// pre-tick elapsed time has reached the maximum, every earlier tick
/// returns `Stay` and tick `expiring` returns the transition to the main
/// menu. In particular the transition does not come on the tick whose
/// delta first carries the elapsed time across the maximum, but on the
/// following one.
pub proof fn lemma_expiry_boundary(
    state: SessionModel,
    deltas: Seq<u64>,
    max_millis: int,
    key: Seq<char>,
    score: u64,
    expiring: int,
)
    requires
        0 <= expiring < deltas.len(),
        forall|i: int|
            0 <= i < expiring ==> state.elapsed_millis + sum_millis(#[trigger] deltas.take(i))
                < max_millis,
        state.elapsed_millis + sum_millis(deltas.take(expiring)) >= max_millis,
    ensures
        forall|i: int|
            0 <= i < expiring ==> tick_decision(
                session_run(state, #[trigger] deltas.take(i), max_millis, key, score)
                    .elapsed_millis,
                max_millis,
            ) == TransitionDecision::Stay,
        tick_decision(
            session_run(state, deltas.take(expiring), max_millis, key, score).elapsed_millis,
            max_millis,
        ) == TransitionDecision::ReplaceMainMenu,
{
    assert forall|i: int|
        0 <= i < expiring implies tick_decision(
        session_run(state, #[trigger] deltas.take(i), max_millis, key, score).elapsed_millis,
        max_millis,
    ) == TransitionDecision::Stay by {
        lemma_elapsed_time_is_delta_sum(state, deltas.take(i), max_millis, key, score);
    }
    lemma_elapsed_time_is_delta_sum(state, deltas.take(expiring), max_millis, key, score);
}

/// High-score commit exactly once: for a session whose first expiring
/// tick is tick `expiring`, the ticks before it leave the store exactly
/// as it was, and the run through tick `expiring` leaves the store
/// updated once, with the score passed to that final tick.
pub proof fn lemma_high_score_committed_once(
    state: SessionModel,
    deltas: Seq<u64>,
    max_millis: int,
    key: Seq<char>,
    score: u64,
    expiring: int,
)
    requires
        0 <= expiring < deltas.len(),
        forall|i: int|
            0 <= i < expiring ==> state.elapsed_millis + sum_millis(#[trigger] deltas.take(i))
                < max_millis,
        state.elapsed_millis + sum_millis(deltas.take(expiring)) >= max_millis,
    ensures
        session_run(state, deltas.take(expiring), max_millis, key, score).high_scores
            == state.high_scores,
        session_run(state, deltas.take(expiring + 1), max_millis, key, score).high_scores
            == spec_update_if_greater(state.high_scores, key, score),
{
    lemma_run_before_expiry(state, deltas, max_millis, key, score, expiring);
    assert(deltas.take(expiring + 1).drop_last() =~= deltas.take(expiring));
    lemma_elapsed_time_is_delta_sum(state, deltas.take(expiring), max_millis, key, score);
}

/// Readout throttling: a tick of a running session that stays within the
/// same whole second leaves the readout text untouched; one that crosses
/// a whole-second boundary rewrites it with the new elapsed time.
pub proof fn lemma_readout_throttling(
    state: SessionModel,
    delta_millis: u64,
    max_millis: int,
    key: Seq<char>,
    score: u64,
)
    requires
        !session_expired(state.elapsed_millis, max_millis),
    ensures
        !crossed_whole_second(state.elapsed_millis, delta_millis as int) ==> session_step(
            state,
            delta_millis,
            max_millis,
            key,
            score,
        ).readout == state.readout,
        crossed_whole_second(state.elapsed_millis, delta_millis as int) && state.readout is Some
            ==> session_step(state, delta_millis, max_millis, key, score).readout == Some(
            running_readout_text(state.elapsed_millis + delta_millis, max_millis),
        ),
{
}

/// Missing-entity safety: an expiring tick with no readout present
/// still commits the high score, asks for the main-menu transition, and
/// ends with no readout — nothing fails for want of the entity.
pub proof fn lemma_expiry_without_readout(
    state: SessionModel,
    delta_millis: u64,
    max_millis: int,
    key: Seq<char>,
    score: u64,
)
    requires
        state.readout is None,
        session_expired(state.elapsed_millis, max_millis),
    ensures
        session_step(state, delta_millis, max_millis, key, score).high_scores
            == spec_update_if_greater(state.high_scores, key, score),
        session_step(state, delta_millis, max_millis, key, score).readout is None,
        tick_decision(state.elapsed_millis, max_millis) == TransitionDecision::ReplaceMainMenu,
{
}

/// Advances the session timer by `delta_millis` and commits the score
/// once the session has expired.
///
/// Always adds the delta to the elapsed time. Where the tick crosses a
/// whole-second boundary, the readout (if one exists) is rewritten with
/// the new elapsed time. Where the pre-tick elapsed time has reached
/// `max_millis`, the score is committed to the high-score store under
/// `high_score_key`, the readout is deleted, and the caller is asked to
/// replace the state with the main menu; absence of a readout skips the
/// deletion silently and commits all the same.
pub fn update_timer_and_set_high_score(
    world: &mut GameWorld,
    elapsed_time: &mut u64,
    max_time: u64,
    score: u64,
    high_score_key: &str,
    delta_millis: u64,
) -> (decision: TransitionDecision)
    requires
        old(world).wf(),
        *old(elapsed_time) + delta_millis <= u64::MAX,
    ensures
        final(world).wf(),
        ({
            let before = SessionModel {
                elapsed_millis: *old(elapsed_time) as int,
                readout: readout_view(old(world).timer_readout),
                high_scores: old(world).high_scores@,
            };
            let after = session_step(
                before,
                delta_millis,
                max_time as int,
                high_score_key@,
                score,
            );
            &&& *final(elapsed_time) == after.elapsed_millis
            &&& readout_view(final(world).timer_readout) == after.readout
            &&& final(world).high_scores@ == after.high_scores
            &&& decision == tick_decision(*old(elapsed_time) as int, max_time as int)
        }),
        final(world).screen == old(world).screen,
        final(world).cameras == old(world).cameras,
        final(world).level_title == old(world).level_title,
{
    let old_time = *elapsed_time;
    let new_time = old_time + delta_millis;

    let time_changed_by_a_second = whole_seconds(new_time) > whole_seconds(old_time);
    let level_is_over = old_time >= max_time;

    *elapsed_time = new_time;

    if time_changed_by_a_second || level_is_over {
        if let Some(readout) = &mut world.timer_readout {
            readout.text = running_readout_string(new_time, max_time);
        }
    }

    if level_is_over {
        let key = high_score_key.to_owned();
        world.high_scores.update_if_greater(&key, score);
        world.timer_readout = None;
        TransitionDecision::ReplaceMainMenu
    } else {
        TransitionDecision::Stay
    }
}

} // verus!
