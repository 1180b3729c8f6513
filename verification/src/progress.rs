//! Completion of a part of the turn: when is the current part of the turn
//! complete, so that the cycle may move on?
//!
//! A part is complete when every animation that was started in it has
//! finished and, on top of that, a minimum time has passed since the part
//! was entered. The minimum keeps parts without any animation visible. Both
//! conditions must hold at once; there is no partial credit.

use crate::turns::TurnState;
use vstd::prelude::*;

verus! {

/// The least time that every part of a turn lasts, in nanoseconds (50 ms).
pub const MINIMUM_TURN_NANOS: u64 = 50_000_000;

/// The progress value of an animation that has finished, in percent.
pub const FINISHED_PERCENT: u32 = 100;

/// The largest number of animations whose progress can be added up in one
/// [`Progress`].
pub const MAX_ANIMATIONS: usize = 42_949_672;

/// How much of some work has been done: `done` units out of `total`.
#[derive(Debug, Clone, Copy, PartialEq, Eq, Structural, Hash)]
pub struct Progress {
    /// Units of work completed.
    pub done: u32,
    /// Total units of work expected.
    pub total: u32,
}

impl Progress {
    /// Nothing is left to do.
    pub open spec fn spec_is_ready(self) -> bool {
        self.done >= self.total
    }

    /// The progress of work that is either done or not.
    pub open spec fn of(finished: bool) -> Progress {
        Progress { done: if finished { 1 } else { 0 }, total: 1 }
    }

    /// Is nothing left to do?
    pub fn is_ready(self) -> (ready: bool)
        ensures
            ready == self.spec_is_ready(),
    {
        self.done >= self.total
    }
}

impl From<bool> for Progress {
    /// One unit of work, done or not.
    fn from(finished: bool) -> (progress: Progress) {
        Progress { done: if finished { 1 } else { 0 }, total: 1 }
    }
}

impl vstd::std_specs::convert::FromSpecImpl<bool> for Progress {
    open spec fn obeys_from_spec() -> bool {
        true
    }

    open spec fn from_spec(finished: bool) -> Progress {
        Progress::of(finished)
    }
}

/// Measures how long the current part of the turn has lasted.
#[derive(Debug, Clone, Copy, PartialEq, Eq, Structural, Hash)]
pub struct TurnTimer {
    /// The turn state that the timer was last armed for.
    pub state: TurnState,
    /// Time that has passed in that state, in nanoseconds. It stops counting
    /// at the largest value that fits.
    pub elapsed_nanos: u64,
}

/// The sum of `deltas`.
pub open spec fn total_time(deltas: Seq<u64>) -> nat
    decreases deltas.len(),
{
    if deltas.len() == 0 {
        0
    } else {
        total_time(deltas.drop_last()) + deltas.last() as nat
    }
}

impl TurnTimer {
    /// Has the current part lasted the minimum time?
    pub open spec fn spec_finished(self) -> bool {
        self.elapsed_nanos >= MINIMUM_TURN_NANOS
    }

    /// The timer after a frame in which the turn state was `state` and which
    /// took `delta_nanos`. If `state` differs from the state the timer was
    /// armed for, the part has changed: the timer starts over for the new
    /// state before the frame's time is counted.
    pub open spec fn spec_tick(self, state: TurnState, delta_nanos: u64) -> TurnTimer {
        let before: int = if state == self.state {
            self.elapsed_nanos as int
        } else {
            0
        };
        TurnTimer {
            state,
            elapsed_nanos: if before + delta_nanos > u64::MAX {
                u64::MAX
            } else {
                (before + delta_nanos) as u64
            },
        }
    }

    /// The timer after one frame for each entry of `deltas`, all of them in
    /// the turn state `state`.
    pub open spec fn spec_run(self, state: TurnState, deltas: Seq<u64>) -> TurnTimer
        decreases deltas.len(),
    {
        if deltas.len() == 0 {
            self
        } else {
            self.spec_run(state, deltas.drop_last()).spec_tick(state, deltas.last())
        }
    }

    /// A timer for the time outside a gameplay session.
    pub fn new() -> (timer: TurnTimer)
        ensures
            timer == (TurnTimer { state: TurnState::NoTurn, elapsed_nanos: 0 }),
    {
        TurnTimer { state: TurnState::NoTurn, elapsed_nanos: 0 }
    }

    /// Has the current part lasted the minimum time?
    pub fn finished(&self) -> (finished: bool)
        ensures
            finished == self.spec_finished(),
    {
        self.elapsed_nanos >= MINIMUM_TURN_NANOS
    }
}

/// Make every part of a turn last at least [`MINIMUM_TURN_NANOS`]. Called
/// once per frame with the current turn state and the time that the frame
/// took: arms the timer anew if the state has changed since the last call,
/// counts the frame's time, and reports whether the minimum has been
/// reached.
pub fn make_sure_turn_is_long_enough(timer: &mut TurnTimer, state: TurnState, delta_nanos: u64) -> (progress:
    Progress)
    ensures
        *final(timer) == old(timer).spec_tick(state, delta_nanos),
        progress == Progress::of(final(timer).spec_finished()),
        progress.spec_is_ready() == final(timer).spec_finished(),
{
    if state != timer.state {
        timer.state = state;
        timer.elapsed_nanos = 0;
    }
    timer.elapsed_nanos = timer.elapsed_nanos.saturating_add(delta_nanos);
    Progress::from(timer.finished())
}

/// Units of work done by animations with the given progress in percent:
/// each counts with its percentage, and with no more than a hundred.
pub open spec fn done_units(percents: Seq<u32>) -> nat
    decreases percents.len(),
{
    if percents.len() == 0 {
        0
    } else {
        done_units(percents.drop_last()) + if percents.last() >= FINISHED_PERCENT {
            FINISHED_PERCENT as nat
        } else {
            percents.last() as nat
        }
    }
}

/// Every one of the animations has finished.
pub open spec fn all_finished(percents: Seq<u32>) -> bool {
    forall|i: int| 0 <= i < percents.len() ==> #[trigger] percents[i] >= FINISHED_PERCENT
}

/// The combined progress of animations with the given progress in percent.
pub open spec fn spec_animation_progress(percents: Seq<u32>) -> Progress {
    Progress { done: done_units(percents) as u32, total: (100 * percents.len()) as u32 }
}

/// The units done never exceed a hundred for each animation, and reach that
/// exactly when every animation has finished.
pub proof fn lemma_done_units(percents: Seq<u32>)
    ensures
        done_units(percents) <= 100 * percents.len(),
        done_units(percents) == 100 * percents.len() <==> all_finished(percents),
    decreases percents.len(),
{
    if percents.len() > 0 {
        let front = percents.drop_last();
        lemma_done_units(front);
        if all_finished(percents) {
            assert forall|i: int| 0 <= i < front.len() implies #[trigger] front[i]
                >= FINISHED_PERCENT by {
                assert(front[i] == percents[i]);
            }
            assert(percents[percents.len() - 1] >= FINISHED_PERCENT);
        }
        if done_units(percents) == 100 * percents.len() {
            assert forall|i: int| 0 <= i < percents.len() implies #[trigger] percents[i]
                >= FINISHED_PERCENT by {
                if i < front.len() {
                    assert(front[i] == percents[i]);
                }
            }
        }
    }
}

/// Check if all animations are done. `percents` holds, for each animation
/// that is under way, how far it has run, in percent; a value above a
/// hundred counts as a hundred. The result counts a hundred units of work
/// for each animation, and as done what each has run.
pub fn is_animation_done(percents: &Vec<u32>) -> (progress: Progress)
    requires
        percents.len() <= MAX_ANIMATIONS,
    ensures
        progress == spec_animation_progress(percents@),
        progress.total == 100 * percents.len(),
        progress.done == done_units(percents@),
        progress.spec_is_ready() == all_finished(percents@),
{
    let mut done: u32 = 0;
    let mut total: u32 = 0;
    let mut i: usize = 0;
    while i < percents.len()
        invariant
            i <= percents.len(),
            percents.len() <= MAX_ANIMATIONS,
            total == 100 * i,
            done == done_units(percents@.take(i as int)),
            done <= total,
        decreases percents.len() - i,
    {
        let percent = percents[i];
        proof {
            let seen = percents@.take(i as int + 1);
            assert(seen.drop_last() =~= percents@.take(i as int));
            assert(seen.last() == percent);
        }
        done += if percent >= FINISHED_PERCENT {
            FINISHED_PERCENT
        } else {
            percent
        };
        total += 100;
        i += 1;
    }
    proof {
        assert(percents@.take(i as int) =~= percents@);
        lemma_done_units(percents@);
    }
    Progress { done, total }
}

/// Is the current part of the turn complete? It is when the part has
/// lasted the minimum time, as `timer` has measured it, and every animation
/// has finished. With no animation at all the minimum time still has to
/// pass.
pub fn is_phase_complete(timer: &TurnTimer, percents: &Vec<u32>) -> (complete: bool)
    requires
        percents.len() <= MAX_ANIMATIONS,
    ensures
        complete == (timer.spec_finished() && all_finished(percents@)),
        !timer.spec_finished() ==> !complete,
        (exists|i: int| 0 <= i < percents.len() && percents[i] < FINISHED_PERCENT) ==> !complete,
{
    let waited: Progress = Progress::from(timer.finished());
    let animated = is_animation_done(percents);
    waited.is_ready() && animated.is_ready()
}

/// Within one part of the turn the timer only grows: once the minimum time
/// has passed, it has passed for the rest of the part.
pub proof fn lemma_timer_is_monotone(timer: TurnTimer, delta_nanos: u64)
    ensures
        timer.spec_tick(timer.state, delta_nanos).elapsed_nanos >= timer.elapsed_nanos,
        timer.spec_finished() ==> timer.spec_tick(timer.state, delta_nanos).spec_finished(),
{
}

/// Entering a part arms the timer: after the frames of a part that was
/// just entered, the timer holds the time of exactly those frames, whatever
/// it held before, and reports the minimum as reached exactly when those
/// frames add up to it.
pub proof fn lemma_timer_counts_from_entry(timer: TurnTimer, state: TurnState, deltas: Seq<u64>)
    requires
        state != timer.state,
        deltas.len() > 0,
    ensures
        timer.spec_run(state, deltas).state == state,
        timer.spec_run(state, deltas).elapsed_nanos == if total_time(deltas) > u64::MAX {
            u64::MAX as nat
        } else {
            total_time(deltas)
        },
        timer.spec_run(state, deltas).spec_finished() == (total_time(deltas)
            >= MINIMUM_TURN_NANOS),
    decreases deltas.len(),
{
    let front = deltas.drop_last();
    let before = timer.spec_run(state, front);
    assert(timer.spec_run(state, deltas) == before.spec_tick(state, deltas.last()));
    assert(total_time(deltas) == total_time(front) + deltas.last());
    if front.len() > 0 {
        lemma_timer_counts_from_entry(timer, state, front);
    } else {
        assert(before == timer);
        assert(total_time(front) == 0);
    }
}

} // verus!
