//! The clock as a state machine over plain values.
//!
//! The rule for the end of a cycle, stated once: breaks are sessions of the
//! same list as the work sessions, and the category of the clock is the kind
//! of the session it stands on. When a session ends, the count of finished
//! work sessions goes up by one if that session was a work session. The next
//! session is entered if the list has one and the count is still below the
//! preset's session count; otherwise the cycle is complete. So a cycle is
//! bounded both by the list and by the session count, and a break that
//! follows the last counted work session is not run.
//!
//! A tick takes one second off the running session and moves on as soon as
//! nothing is left of it. A session of length zero is held for one tick.

use vstd::prelude::*;

use crate::session::{
    lemma_work_before_monotonic, work_before, work_total, work_weight, PresetView, SessionKind,
};

verus! {

/// Where the clock stands in its life.
#[derive(Clone, Copy, Debug, PartialEq, Eq, Structural)]
pub enum ClockStatus {
    /// Not started, or stopped.
    Idle,
    Running,
    Paused,
    /// The cycle has run to its end.
    Completed,
}

/// The live state of a clock.
#[derive(Clone, Copy, Debug, PartialEq, Eq, Structural)]
pub struct ClockState {
    /// Position of the current session in the preset's list.
    pub active_index: usize,
    /// Seconds left of the current session.
    pub remaining: u64,
    pub status: ClockStatus,
    /// Work sessions finished in this cycle.
    pub completed_sessions: usize,
}

/// The live state of a clock, as unbounded values.
pub struct ClockModel {
    pub active_index: nat,
    pub remaining: nat,
    pub status: ClockStatus,
    pub completed_sessions: nat,
}

impl View for ClockState {
    type V = ClockModel;

    open spec fn view(&self) -> ClockModel {
        ClockModel {
            active_index: self.active_index as nat,
            remaining: self.remaining as nat,
            status: self.status,
            completed_sessions: self.completed_sessions as nat,
        }
    }
}

/// The state of a clock that has not been started.
pub open spec fn idle() -> ClockModel {
    ClockModel { active_index: 0, remaining: 0, status: ClockStatus::Idle, completed_sessions: 0 }
}

/// Whether a cycle with `done` finished work sessions has a session to run
/// at position `index`.
pub open spec fn has_session(preset: PresetView, index: nat, done: nat) -> bool {
    index < preset.sessions.len() && done < preset.session_count
}

/// Work sessions finished when a cycle has run to its end.
pub open spec fn final_count(preset: PresetView) -> nat {
    if preset.session_count <= work_total(preset.sessions) {
        preset.session_count
    } else {
        work_total(preset.sessions)
    }
}

/// The state of a clock whose cycle has run to its end.
pub open spec fn finished(preset: PresetView) -> ClockModel {
    ClockModel {
        active_index: preset.sessions.len(),
        remaining: 0,
        status: ClockStatus::Completed,
        completed_sessions: final_count(preset),
    }
}

/// The state on arriving at position `index` with `done` finished work
/// sessions: running that session in full if there is one to run, and
/// complete otherwise.
pub open spec fn enter(preset: PresetView, index: nat, done: nat) -> ClockModel {
    if has_session(preset, index, done) {
        ClockModel {
            active_index: index,
            remaining: preset.sessions[index as int].duration,
            status: ClockStatus::Running,
            completed_sessions: done,
        }
    } else {
        ClockModel {
            active_index: preset.sessions.len(),
            remaining: 0,
            status: ClockStatus::Completed,
            completed_sessions: done,
        }
    }
}

/// Whether a cycle is in progress: the clock is running or paused.
pub open spec fn in_progress(state: ClockModel) -> bool {
    state.status == ClockStatus::Running || state.status == ClockStatus::Paused
}

/// Starting: a clock that is idle or complete begins a fresh cycle at the
/// first session; one whose cycle is in progress is left as it is.
pub open spec fn start(preset: PresetView, state: ClockModel) -> ClockModel {
    if in_progress(state) {
        state
    } else {
        enter(preset, 0, 0)
    }
}

/// Pausing: a running clock becomes paused; any other is left as it is.
pub open spec fn pause(state: ClockModel) -> ClockModel {
    if state.status == ClockStatus::Running {
        ClockModel { status: ClockStatus::Paused, ..state }
    } else {
        state
    }
}

/// Resuming: a paused clock runs again; any other is left as it is.
pub open spec fn resume(state: ClockModel) -> ClockModel {
    if state.status == ClockStatus::Paused {
        ClockModel { status: ClockStatus::Running, ..state }
    } else {
        state
    }
}

/// Stopping: whatever the state was, the clock is idle again.
pub open spec fn stop(state: ClockModel) -> ClockModel {
    idle()
}

/// Leaving the current session at its end: it is counted if it was a work
/// session, and the next position is entered.
pub open spec fn advance(preset: PresetView, state: ClockModel) -> ClockModel {
    enter(
        preset,
        state.active_index + 1,
        state.completed_sessions + work_weight(preset.sessions[state.active_index as int]),
    )
}

/// One second passing. Only a running clock is touched: a second is taken
/// off what remains, if anything remains, and when nothing remains after
/// that the clock advances.
pub open spec fn tick(preset: PresetView, state: ClockModel) -> ClockModel {
    if state.status != ClockStatus::Running {
        state
    } else {
        let left: nat = if state.remaining > 0 {
            (state.remaining - 1) as nat
        } else {
            0
        };
        if left > 0 {
            ClockModel { remaining: left, ..state }
        } else {
            advance(preset, state)
        }
    }
}

/// The state after a number of ticks in a row.
pub open spec fn run(preset: PresetView, state: ClockModel, ticks: nat) -> ClockModel
    decreases ticks,
{
    if ticks == 0 {
        state
    } else {
        run(preset, tick(preset, state), (ticks - 1) as nat)
    }
}

/// The category of the clock: the kind of the session it stands on while a
/// cycle is in progress, and nothing otherwise.
pub open spec fn category(preset: PresetView, state: ClockModel) -> Option<SessionKind> {
    if in_progress(state) && state.active_index < preset.sessions.len() {
        Some(preset.sessions[state.active_index as int].kind)
    } else {
        None
    }
}

/// The states that a clock on the given preset can be in.
///
/// While a cycle is in progress the position lies in the list, no more
/// remains than the session is long, and the count is the number of work
/// sessions before the position, below the session count. A complete clock
/// stands behind the last session with nothing remaining. An idle clock is
/// in the one idle state.
pub open spec fn valid(preset: PresetView, state: ClockModel) -> bool {
    match state.status {
        ClockStatus::Idle => state == idle(),
        ClockStatus::Running | ClockStatus::Paused => {
            &&& state.active_index < preset.sessions.len()
            &&& state.remaining <= preset.sessions[state.active_index as int].duration
            &&& state.completed_sessions == work_before(preset.sessions, state.active_index)
            &&& state.completed_sessions < preset.session_count
        },
        ClockStatus::Completed => state == finished(preset),
    }
}

/// Arriving at a position with the work sessions before it counted gives a
/// state that the clock can be in.
pub proof fn lemma_enter_valid(preset: PresetView, index: nat)
    requires
        index <= preset.sessions.len(),
        index > 0 ==> work_before(preset.sessions, (index - 1) as nat) < preset.session_count,
    ensures
        valid(preset, enter(preset, index, work_before(preset.sessions, index))),
{
    let done = work_before(preset.sessions, index);
    if !has_session(preset, index, done) {
        lemma_work_before_monotonic(preset.sessions, index, preset.sessions.len());
    }
}

/// Every transition leads from a state that the clock can be in to another
/// such state.
pub proof fn lemma_transitions_keep_valid(preset: PresetView, state: ClockModel)
    requires
        valid(preset, state),
    ensures
        valid(preset, idle()),
        valid(preset, start(preset, state)),
        valid(preset, pause(state)),
        valid(preset, resume(state)),
        valid(preset, stop(state)),
        valid(preset, tick(preset, state)),
        state.status == ClockStatus::Running ==> valid(preset, advance(preset, state)),
{
    lemma_enter_valid(preset, 0);
    if in_progress(state) {
        lemma_enter_valid(preset, state.active_index + 1);
    }
}

/// Any number of ticks leads from a state that the clock can be in to
/// another such state.
pub proof fn lemma_run_keeps_valid(preset: PresetView, state: ClockModel, ticks: nat)
    requires
        valid(preset, state),
    ensures
        valid(preset, run(preset, state, ticks)),
    decreases ticks,
{
    if ticks > 0 {
        lemma_transitions_keep_valid(preset, state);
        lemma_run_keeps_valid(preset, tick(preset, state), (ticks - 1) as nat);
    }
}

} // verus!
