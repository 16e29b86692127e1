//! What holds of the clock in every state and on every preset.

use vstd::prelude::*;

use crate::clock::model::{
    enter, final_count, finished, has_session, idle, in_progress, lemma_transitions_keep_valid,
    pause, resume, run, start, stop, tick, valid, ClockModel, ClockStatus,
};
use crate::session::{seconds_before, total_seconds, work_total, work_weight, PresetView, SessionView};

verus! {

/// Ticks that a session is held for: one for each of its seconds, and one if
/// it has none.
pub open spec fn ticks_of(session: SessionView) -> nat {
    if session.duration == 0 {
        1
    } else {
        session.duration
    }
}

/// Ticks from arriving at position `index` with `done` finished work
/// sessions until the cycle is complete.
pub open spec fn ticks_from(preset: PresetView, index: nat, done: nat) -> nat
    decreases preset.sessions.len() - index,
{
    if !has_session(preset, index, done) {
        0
    } else {
        ticks_of(preset.sessions[index as int]) + ticks_from(
            preset,
            index + 1,
            done + work_weight(preset.sessions[index as int]),
        )
    }
}

/// Ticks that a whole cycle of the preset takes.
pub open spec fn cycle_ticks(preset: PresetView) -> nat {
    ticks_from(preset, 0, 0)
}

/// Ticks that a clock needs to complete its cycle if it is not paused.
pub open spec fn ticks_left(preset: PresetView, state: ClockModel) -> nat {
    if in_progress(state) {
        (if state.remaining == 0 {
            1
        } else {
            state.remaining
        }) + ticks_from(
            preset,
            state.active_index + 1,
            state.completed_sessions + work_weight(preset.sessions[state.active_index as int]),
        )
    } else {
        0
    }
}

/// Whether every session of the list is at least a second long.
pub open spec fn all_positive(sessions: Seq<SessionView>) -> bool {
    forall|i: int| 0 <= i < sessions.len() ==> (#[trigger] sessions[i]).duration > 0
}

/// A tick of a running clock brings it one tick nearer to the end of its
/// cycle, and completes it when that was the last one.
pub proof fn lemma_tick_counts_down(preset: PresetView, state: ClockModel)
    requires
        valid(preset, state),
        state.status == ClockStatus::Running,
    ensures
        ticks_left(preset, state) >= 1,
        ticks_left(preset, tick(preset, state)) == ticks_left(preset, state) - 1,
        ticks_left(preset, state) == 1 <==> tick(preset, state).status == ClockStatus::Completed,
        ticks_left(preset, state) > 1 ==> tick(preset, state).status == ClockStatus::Running,
{
    lemma_transitions_keep_valid(preset, state);
}

/// A clock that is complete or idle is not moved by ticks.
pub proof fn lemma_run_at_rest(preset: PresetView, state: ClockModel, ticks: nat)
    requires
        state.status != ClockStatus::Running,
    ensures
        run(preset, state, ticks) == state,
    decreases ticks,
{
    if ticks > 0 {
        lemma_run_at_rest(preset, state, (ticks - 1) as nat);
    }
}

/// A running clock is still running after fewer ticks than its cycle needs,
/// and is complete after that many ticks or more.
pub proof fn lemma_run_to_completion(preset: PresetView, state: ClockModel, ticks: nat)
    requires
        valid(preset, state),
        state.status == ClockStatus::Running,
    ensures
        ticks < ticks_left(preset, state) ==> run(preset, state, ticks).status
            == ClockStatus::Running,
        ticks >= ticks_left(preset, state) ==> run(preset, state, ticks) == finished(preset),
    decreases ticks,
{
    lemma_tick_counts_down(preset, state);
    lemma_transitions_keep_valid(preset, state);
    if ticks > 0 {
        let next = tick(preset, state);
        if next.status == ClockStatus::Running {
            lemma_run_to_completion(preset, next, (ticks - 1) as nat);
        } else {
            lemma_run_at_rest(preset, next, (ticks - 1) as nat);
        }
    }
}

/// A cycle takes exactly `cycle_ticks` ticks: started from rest, the clock is
/// running after fewer ticks and complete after that many or more, with
/// every work session counted that the session count and the list allow.
pub proof fn lemma_cycle_completes(preset: PresetView, state: ClockModel, ticks: nat)
    requires
        valid(preset, state),
        !in_progress(state),
    ensures
        ticks < cycle_ticks(preset) ==> run(preset, start(preset, state), ticks).status
            == ClockStatus::Running,
        ticks >= cycle_ticks(preset) ==> run(preset, start(preset, state), ticks) == finished(
            preset,
        ),
{
    let begun = start(preset, state);
    lemma_transitions_keep_valid(preset, state);
    if begun.status == ClockStatus::Running {
        lemma_run_to_completion(preset, begun, ticks);
    } else {
        lemma_run_at_rest(preset, begun, ticks);
    }
}

/// From any position on, the rest of a cycle takes no more ticks than the
/// sessions from there on have seconds, if each of them is at least a second
/// long.
pub proof fn lemma_ticks_from_bounded(preset: PresetView, index: nat, done: nat)
    requires
        all_positive(preset.sessions),
        index <= preset.sessions.len(),
    ensures
        ticks_from(preset, index, done) + seconds_before(preset.sessions, index) <= total_seconds(
            preset.sessions,
        ),
    decreases preset.sessions.len() - index,
{
    if index < preset.sessions.len() {
        lemma_ticks_from_bounded(
            preset,
            index + 1,
            done + work_weight(preset.sessions[index as int]),
        );
    }
}

/// A cycle takes no more ticks than its sessions have seconds, if each of
/// them is at least a second long.
pub proof fn lemma_cycle_ticks_bounded(preset: PresetView)
    requires
        all_positive(preset.sessions),
    ensures
        cycle_ticks(preset) <= total_seconds(preset.sessions),
{
    lemma_ticks_from_bounded(preset, 0, 0);
}

/// Started from rest and given as many ticks as its sessions have seconds,
/// the clock is complete and has counted as many work sessions as the
/// preset's session count says.
///
/// This holds of the presets whose cycle takes no more ticks than the
/// sessions have seconds, which is so whenever each session is at least a
/// second long, and whose list holds at least as many work sessions as the
/// session count says.
pub proof fn lemma_full_run_completes(preset: PresetView)
    requires
        cycle_ticks(preset) <= total_seconds(preset.sessions),
        preset.session_count <= work_total(preset.sessions),
    ensures
        run(preset, start(preset, idle()), total_seconds(preset.sessions)).status
            == ClockStatus::Completed,
        run(preset, start(preset, idle()), total_seconds(preset.sessions)).completed_sessions
            == preset.session_count,
{
    lemma_cycle_completes(preset, idle(), total_seconds(preset.sessions));
}

/// The same for presets whose sessions are each at least a second long.
pub proof fn lemma_full_run_completes_positive(preset: PresetView)
    requires
        all_positive(preset.sessions),
        preset.session_count <= work_total(preset.sessions),
    ensures
        run(preset, start(preset, idle()), total_seconds(preset.sessions)) == finished(preset),
        finished(preset).completed_sessions == preset.session_count,
{
    lemma_cycle_ticks_bounded(preset);
    lemma_cycle_completes(preset, idle(), total_seconds(preset.sessions));
}

/// Ticks that arrive while the clock is paused are not counted: after a
/// pause, any number of ticks and a resume, as much remains as before the
/// pause, and a clock that was running is in the very state it was in.
pub proof fn lemma_pause_freezes(preset: PresetView, state: ClockModel, ticks: nat)
    ensures
        run(preset, pause(state), ticks) == pause(state),
        resume(run(preset, pause(state), ticks)).remaining == state.remaining,
        state.status == ClockStatus::Running ==> resume(run(preset, pause(state), ticks))
            == state,
{
    lemma_run_at_rest(preset, pause(state), ticks);
}

/// Stopping leads to the idle state from every state, and ticks leave a
/// stopped clock as it is until it is started again.
pub proof fn lemma_stop_resets(preset: PresetView, state: ClockModel, ticks: nat)
    ensures
        stop(state).active_index == 0,
        stop(state).remaining == 0,
        stop(state).status == ClockStatus::Idle,
        stop(state).completed_sessions == 0,
        tick(preset, stop(state)) == stop(state),
        run(preset, stop(state), ticks) == stop(state),
        start(preset, stop(state)) == enter(preset, 0, 0),
{
    lemma_run_at_rest(preset, stop(state), ticks);
}

/// Starting twice in a row leads to the same state as starting once.
pub proof fn lemma_start_idempotent(preset: PresetView, state: ClockModel)
    ensures
        start(preset, start(preset, state)) == start(preset, state),
{
}

/// The clock is complete exactly when it has been started and stands behind
/// the last session, and a cycle is in progress exactly when it has been
/// started and stands on a session of the list.
pub proof fn lemma_completed_is_past_the_end(preset: PresetView, state: ClockModel)
    requires
        valid(preset, state),
        state.status != ClockStatus::Idle,
    ensures
        state.status == ClockStatus::Completed <==> state.active_index >= preset.sessions.len(),
        in_progress(state) <==> state.active_index < preset.sessions.len(),
        state.status == ClockStatus::Completed ==> state.completed_sessions == final_count(preset),
{
}

} // verus!
