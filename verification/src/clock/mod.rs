//! The session clock: a preset, the live state of the cycle running on it,
//! and the bookkeeping for the task that delivers one tick each second.
//!
//! The clock does no waiting of its own. Every command answers with what
//! its owner has to do: whether to draw the state anew, and whether to arm
//! or to end the repeating task that delivers the ticks. Such a task calls
//! `tick` once a second with the epoch it was armed under, and ends when
//! `tick` says so. A task armed for an earlier cycle carries an earlier
//! epoch: its ticks change nothing and tell it to end, so no second is ever
//! counted twice.

use vstd::prelude::*;

use crate::clock::model::{
    advance, category, enter, has_session, idle, in_progress, lemma_transitions_keep_valid, pause,
    resume, start, stop, tick, valid, ClockModel, ClockState, ClockStatus,
};
use crate::session::{
    lemma_work_before_bounded, PresetView, Session, SessionKind, TimerPreset,
};

pub mod laws;
pub mod model;

verus! {

/// What the task that delivers the ticks does after a tick.
#[derive(Clone, Copy, Debug, PartialEq, Eq, Structural)]
pub enum TickVerdict {
    /// Deliver another tick in a second.
    Reschedule,
    /// End; deliver no further tick.
    Terminate,
}

/// What becomes of the task that delivers the ticks after a command.
#[derive(Clone, Copy, Debug, PartialEq, Eq, Structural)]
pub enum DriverAction {
    /// Leave things as they are, whether a task is alive or not.
    Keep,
    /// Arm a new task, which delivers its ticks under this epoch.
    Arm(u64),
    /// End the task, if one is alive.
    Cancel,
}

/// What the owner of the clock has to do after a command.
#[derive(Clone, Copy, Debug, PartialEq, Eq, Structural)]
pub struct Effect {
    /// Whether anything that is shown has changed.
    pub changed: bool,
    pub driver: DriverAction,
}

/// What the owner of the clock and the task have to do after a tick.
#[derive(Clone, Copy, Debug, PartialEq, Eq, Structural)]
pub struct TickEffect {
    /// Whether anything that is shown has changed.
    pub changed: bool,
    pub verdict: TickVerdict,
}

/// The epoch that follows the given one. It is never the given one.
pub open spec fn next_epoch(epoch: u64) -> u64 {
    if epoch == u64::MAX {
        0
    } else {
        (epoch + 1) as u64
    }
}

/// Whether starting from the given state begins a cycle that needs a task to
/// deliver its ticks.
pub open spec fn arms_driver(preset: PresetView, state: ClockModel) -> bool {
    !in_progress(state) && has_session(preset, 0, 0)
}

/// A preset and the cycle running on it.
#[derive(Debug)]
pub struct SessionClock {
    preset: TimerPreset,
    state: ClockState,
    epoch: u64,
}

fn enter_state(preset: &TimerPreset, index: usize, done: usize) -> (state: ClockState)
    ensures
        state@ == enter(preset@, index as nat, done as nat),
{
    if index < preset.sessions.len() && done < preset.session_count {
        ClockState {
            active_index: index,
            remaining: preset.sessions[index].duration,
            status: ClockStatus::Running,
            completed_sessions: done,
        }
    } else {
        ClockState {
            active_index: preset.sessions.len(),
            remaining: 0,
            status: ClockStatus::Completed,
            completed_sessions: done,
        }
    }
}

fn advance_state(preset: &TimerPreset, state: ClockState) -> (next: ClockState)
    requires
        valid(preset@, state@),
        state.status == ClockStatus::Running,
    ensures
        next@ == advance(preset@, state@),
{
    proof {
        lemma_work_before_bounded(preset@.sessions, state.active_index as nat);
    }
    let len: usize = preset.sessions.len();
    assert(state.active_index < len);
    let done: usize = if preset.sessions[state.active_index].is_work() {
        state.completed_sessions + 1
    } else {
        state.completed_sessions
    };
    enter_state(preset, state.active_index + 1, done)
}

fn tick_state(preset: &TimerPreset, state: ClockState) -> (next: ClockState)
    requires
        valid(preset@, state@),
    ensures
        next@ == tick(preset@, state@),
{
    if state.status == ClockStatus::Running {
        let left: u64 = if state.remaining > 0 {
            state.remaining - 1
        } else {
            0
        };
        if left > 0 {
            ClockState { remaining: left, ..state }
        } else {
            advance_state(preset, state)
        }
    } else {
        state
    }
}

impl SessionClock {
    #[verifier::type_invariant]
    spec fn well_formed(&self) -> bool {
        valid(self.preset@, self.state@)
    }

    /// The preset that the clock runs on.
    pub closed spec fn plan(&self) -> PresetView {
        self.preset@
    }

    /// The live state of the clock.
    pub closed spec fn model(&self) -> ClockModel {
        self.state@
    }

    /// The epoch of the task whose ticks the clock accepts.
    pub closed spec fn driver_epoch(&self) -> u64 {
        self.epoch
    }

    /// An idle clock on the given preset.
    pub fn new(preset: TimerPreset) -> (clock: Self)
        ensures
            clock.plan() == preset@,
            clock.model() == idle(),
            clock.driver_epoch() == 0,
            valid(clock.plan(), clock.model()),
    {
        let state = ClockState {
            active_index: 0,
            remaining: 0,
            status: ClockStatus::Idle,
            completed_sessions: 0,
        };
        SessionClock { preset, state, epoch: 0 }
    }

    /// Begins a fresh cycle if none is in progress, and does nothing
    /// otherwise. A preset without a session to run completes at once.
    ///
    /// A task is to be armed exactly when a cycle has begun to run. It gets a
    /// new epoch, so that a task left over from an earlier cycle is turned
    /// away. While a cycle is in progress no second task is ever asked for.
    pub fn start(&mut self) -> (effect: Effect)
        ensures
            final(self).plan() == old(self).plan(),
            final(self).model() == start(old(self).plan(), old(self).model()),
            valid(final(self).plan(), final(self).model()),
            effect.changed == (final(self).model() != old(self).model()),
            effect.driver == if arms_driver(old(self).plan(), old(self).model()) {
                DriverAction::Arm(next_epoch(old(self).driver_epoch()))
            } else {
                DriverAction::Keep
            },
            final(self).driver_epoch() == if arms_driver(old(self).plan(), old(self).model()) {
                next_epoch(old(self).driver_epoch())
            } else {
                old(self).driver_epoch()
            },
    {
        proof {
            use_type_invariant(&*self);
            lemma_transitions_keep_valid(self.preset@, self.state@);
        }
        if self.state.status == ClockStatus::Running || self.state.status == ClockStatus::Paused {
            return Effect { changed: false, driver: DriverAction::Keep };
        }
        let next = enter_state(&self.preset, 0, 0);
        let changed = next != self.state;
        self.state = next;
        if next.status == ClockStatus::Running {
            let epoch: u64 = if self.epoch == u64::MAX {
                0
            } else {
                self.epoch + 1
            };
            self.epoch = epoch;
            Effect { changed, driver: DriverAction::Arm(epoch) }
        } else {
            Effect { changed, driver: DriverAction::Keep }
        }
    }

    /// Pauses a running clock; does nothing in any other state. The task
    /// that delivers the ticks stays alive, and its ticks count nothing while
    /// the clock is paused.
    pub fn pause(&mut self) -> (effect: Effect)
        ensures
            final(self).plan() == old(self).plan(),
            final(self).model() == pause(old(self).model()),
            final(self).driver_epoch() == old(self).driver_epoch(),
            valid(final(self).plan(), final(self).model()),
            effect.changed == (final(self).model() != old(self).model()),
            effect.driver == DriverAction::Keep,
    {
        proof {
            use_type_invariant(&*self);
            lemma_transitions_keep_valid(self.preset@, self.state@);
        }
        if self.state.status == ClockStatus::Running {
            self.state = ClockState { status: ClockStatus::Paused, ..self.state };
            Effect { changed: true, driver: DriverAction::Keep }
        } else {
            Effect { changed: false, driver: DriverAction::Keep }
        }
    }

    /// Lets a paused clock run again; does nothing in any other state.
    pub fn resume(&mut self) -> (effect: Effect)
        ensures
            final(self).plan() == old(self).plan(),
            final(self).model() == resume(old(self).model()),
            final(self).driver_epoch() == old(self).driver_epoch(),
            valid(final(self).plan(), final(self).model()),
            effect.changed == (final(self).model() != old(self).model()),
            effect.driver == DriverAction::Keep,
    {
        proof {
            use_type_invariant(&*self);
            lemma_transitions_keep_valid(self.preset@, self.state@);
        }
        if self.state.status == ClockStatus::Paused {
            self.state = ClockState { status: ClockStatus::Running, ..self.state };
            Effect { changed: true, driver: DriverAction::Keep }
        } else {
            Effect { changed: false, driver: DriverAction::Keep }
        }
    }

    /// The same as `resume`.
    pub fn play(&mut self) -> (effect: Effect)
        ensures
            final(self).plan() == old(self).plan(),
            final(self).model() == resume(old(self).model()),
            final(self).driver_epoch() == old(self).driver_epoch(),
            valid(final(self).plan(), final(self).model()),
            effect.changed == (final(self).model() != old(self).model()),
            effect.driver == DriverAction::Keep,
    {
        self.resume()
    }

    /// Resumes a paused clock and pauses any other.
    pub fn toggle_pause_play(&mut self) -> (effect: Effect)
        ensures
            final(self).plan() == old(self).plan(),
            final(self).model() == if old(self).model().status == ClockStatus::Paused {
                resume(old(self).model())
            } else {
                pause(old(self).model())
            },
            final(self).driver_epoch() == old(self).driver_epoch(),
            valid(final(self).plan(), final(self).model()),
            effect.changed == (final(self).model() != old(self).model()),
            effect.driver == DriverAction::Keep,
    {
        if self.is_paused() {
            self.play()
        } else {
            self.pause()
        }
    }

    /// Ends the cycle, whatever state it is in: the clock is idle again and
    /// the task that delivers the ticks is to be ended. Should that task
    /// tick once more all the same, the tick changes nothing and ends it.
    pub fn stop(&mut self) -> (effect: Effect)
        ensures
            final(self).plan() == old(self).plan(),
            final(self).model() == stop(old(self).model()),
            final(self).model() == idle(),
            final(self).driver_epoch() == old(self).driver_epoch(),
            valid(final(self).plan(), final(self).model()),
            effect.changed == (final(self).model() != old(self).model()),
            effect.driver == DriverAction::Cancel,
    {
        let next = ClockState {
            active_index: 0,
            remaining: 0,
            status: ClockStatus::Idle,
            completed_sessions: 0,
        };
        let changed = next != self.state;
        self.state = next;
        Effect { changed, driver: DriverAction::Cancel }
    }

    /// One second has passed for the task armed under the given epoch.
    ///
    /// A tick of the task that the clock accepts is counted if the clock is
    /// running. A tick under any other epoch changes nothing. The task is
    /// to go on exactly if it is the accepted one and a cycle is still in
    /// progress after the tick: it goes on through a pause, and ends when the
    /// cycle is complete or was stopped.
    pub fn tick(&mut self, epoch: u64) -> (effect: TickEffect)
        ensures
            final(self).plan() == old(self).plan(),
            final(self).driver_epoch() == old(self).driver_epoch(),
            final(self).model() == if epoch == old(self).driver_epoch() {
                tick(old(self).plan(), old(self).model())
            } else {
                old(self).model()
            },
            valid(final(self).plan(), final(self).model()),
            effect.changed == (final(self).model() != old(self).model()),
            effect.changed == (epoch == old(self).driver_epoch() && old(self).model().status
                == ClockStatus::Running),
            effect.verdict == if epoch == old(self).driver_epoch() && in_progress(
                final(self).model(),
            ) {
                TickVerdict::Reschedule
            } else {
                TickVerdict::Terminate
            },
    {
        proof {
            use_type_invariant(&*self);
            lemma_transitions_keep_valid(self.preset@, self.state@);
        }
        if epoch != self.epoch {
            return TickEffect { changed: false, verdict: TickVerdict::Terminate };
        }
        let changed = self.state.status == ClockStatus::Running;
        let next = tick_state(&self.preset, self.state);
        self.state = next;
        if next.status == ClockStatus::Running || next.status == ClockStatus::Paused {
            TickEffect { changed, verdict: TickVerdict::Reschedule }
        } else {
            TickEffect { changed, verdict: TickVerdict::Terminate }
        }
    }

    /// Replaces the preset. The cycle that was running on the old one is
    /// ended: the clock is idle, and the task that delivers the ticks is to
    /// be ended.
    pub fn set_preset(&mut self, preset: TimerPreset) -> (effect: Effect)
        ensures
            final(self).plan() == preset@,
            final(self).model() == idle(),
            final(self).driver_epoch() == old(self).driver_epoch(),
            valid(final(self).plan(), final(self).model()),
            effect.changed,
            effect.driver == DriverAction::Cancel,
    {
        let epoch: u64 = self.epoch;
        let state = ClockState {
            active_index: 0,
            remaining: 0,
            status: ClockStatus::Idle,
            completed_sessions: 0,
        };
        *self = SessionClock { preset, state, epoch };
        Effect { changed: true, driver: DriverAction::Cancel }
    }

    /// The preset that the clock runs on.
    pub fn preset(&self) -> (preset: &TimerPreset)
        ensures
            preset@ == self.plan(),
    {
        &self.preset
    }

    /// The live state, which is always one that the clock can be in.
    pub fn state(&self) -> (state: ClockState)
        ensures
            state@ == self.model(),
            valid(self.plan(), state@),
    {
        proof {
            use_type_invariant(self);
        }
        self.state
    }

    /// The epoch of the task whose ticks are accepted.
    pub fn epoch(&self) -> (epoch: u64)
        ensures
            epoch == self.driver_epoch(),
    {
        self.epoch
    }

    pub fn status(&self) -> (status: ClockStatus)
        ensures
            status == self.model().status,
    {
        self.state.status
    }

    /// Seconds left of the current session.
    pub fn remaining(&self) -> (seconds: u64)
        ensures
            seconds == self.model().remaining,
    {
        self.state.remaining
    }

    /// Position of the current session in the preset's list. While a cycle is
    /// in progress it lies in the list.
    pub fn active_index(&self) -> (index: usize)
        ensures
            index == self.model().active_index,
            in_progress(self.model()) ==> index < self.plan().sessions.len(),
    {
        proof {
            use_type_invariant(self);
        }
        self.state.active_index
    }

    /// Work sessions finished in this cycle.
    pub fn completed_sessions(&self) -> (done: usize)
        ensures
            done == self.model().completed_sessions,
    {
        self.state.completed_sessions
    }

    /// Work sessions that make up one cycle of the preset.
    pub fn session_count(&self) -> (count: usize)
        ensures
            count == self.plan().session_count,
    {
        self.preset.session_count
    }

    pub fn is_idle(&self) -> (idle: bool)
        ensures
            idle == (self.model().status == ClockStatus::Idle),
    {
        self.state.status == ClockStatus::Idle
    }

    pub fn is_running(&self) -> (running: bool)
        ensures
            running == (self.model().status == ClockStatus::Running),
    {
        self.state.status == ClockStatus::Running
    }

    pub fn is_paused(&self) -> (paused: bool)
        ensures
            paused == (self.model().status == ClockStatus::Paused),
    {
        self.state.status == ClockStatus::Paused
    }

    pub fn is_completed(&self) -> (completed: bool)
        ensures
            completed == (self.model().status == ClockStatus::Completed),
    {
        self.state.status == ClockStatus::Completed
    }

    /// The session that the clock stands on while a cycle is in progress.
    pub fn current_session(&self) -> (session: Option<&Session>)
        ensures
            match session {
                Some(current) => in_progress(self.model())
                    && self.model().active_index < self.plan().sessions.len()
                    && current@ == self.plan().sessions[self.model().active_index as int],
                None => !in_progress(self.model()),
            },
    {
        proof {
            use_type_invariant(self);
        }
        if self.state.status == ClockStatus::Running || self.state.status == ClockStatus::Paused {
            Some(&self.preset.sessions[self.state.active_index])
        } else {
            None
        }
    }

    /// Whether the clock is in a work session or a break, while a cycle is in
    /// progress.
    pub fn current_kind(&self) -> (kind: Option<SessionKind>)
        ensures
            kind == category(self.plan(), self.model()),
    {
        match self.current_session() {
            Some(current) => Some(current.kind),
            None => None,
        }
    }
}

} // verus!
