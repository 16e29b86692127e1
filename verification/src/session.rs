//! Sessions and presets: the plan that a clock walks through.
//!
//! A session is one timed interval, either work or a break. A preset is an
//! ordered list of sessions together with the number of work sessions that
//! make up one cycle. Durations are whole seconds.

use vstd::prelude::*;

verus! {

/// Whether an interval is spent working or resting.
#[derive(Clone, Copy, Debug, PartialEq, Eq, Structural)]
pub enum SessionKind {
    Work,
    Break,
}

/// One interval of a plan.
#[derive(Debug)]
pub struct Session {
    pub kind: SessionKind,
    /// Length of the interval in seconds.
    pub duration: u64,
    pub title: String,
}

/// What a session is, as plain values.
pub struct SessionView {
    pub kind: SessionKind,
    pub duration: nat,
    pub title: Seq<char>,
}

impl View for Session {
    type V = SessionView;

    open spec fn view(&self) -> SessionView {
        SessionView { kind: self.kind, duration: self.duration as nat, title: self.title@ }
    }
}

impl Clone for Session {
    fn clone(&self) -> (copy: Self)
        ensures
            copy@ == self@,
    {
        Session { kind: self.kind, duration: self.duration, title: self.title.clone() }
    }
}

impl Session {
    /// A work session of the given length in seconds.
    pub fn work(title: &str, duration: u64) -> (session: Self)
        ensures
            session@ == (SessionView { kind: SessionKind::Work, duration: duration as nat, title: title@ }),
    {
        Session { kind: SessionKind::Work, duration, title: String::from_str(title) }
    }

    /// A break of the given length in seconds.
    pub fn rest(title: &str, duration: u64) -> (session: Self)
        ensures
            session@ == (SessionView { kind: SessionKind::Break, duration: duration as nat, title: title@ }),
    {
        Session { kind: SessionKind::Break, duration, title: String::from_str(title) }
    }

    /// Whether this is a work session.
    pub fn is_work(&self) -> (work: bool)
        ensures
            work == (self@.kind == SessionKind::Work),
    {
        match self.kind {
            SessionKind::Work => true,
            SessionKind::Break => false,
        }
    }
}

/// The sessions of a list, each as plain values.
pub open spec fn session_views(sessions: Seq<Session>) -> Seq<SessionView> {
    Seq::new(sessions.len(), |i: int| sessions[i]@)
}

/// Seconds taken by the first `n` sessions of a list.
pub open spec fn seconds_before(sessions: Seq<SessionView>, n: nat) -> nat
    decreases n,
{
    if n == 0 || n > sessions.len() {
        0
    } else {
        seconds_before(sessions, (n - 1) as nat) + sessions[n - 1].duration
    }
}

/// Seconds taken by all sessions of a list.
pub open spec fn total_seconds(sessions: Seq<SessionView>) -> nat {
    seconds_before(sessions, sessions.len())
}

/// One if the session is a work session, zero if it is a break.
pub open spec fn work_weight(session: SessionView) -> nat {
    if session.kind == SessionKind::Work {
        1
    } else {
        0
    }
}

/// Number of work sessions among the first `n` sessions of a list.
pub open spec fn work_before(sessions: Seq<SessionView>, n: nat) -> nat
    decreases n,
{
    if n == 0 || n > sessions.len() {
        0
    } else {
        work_before(sessions, (n - 1) as nat) + work_weight(sessions[n - 1])
    }
}

/// Number of work sessions in a list.
pub open spec fn work_total(sessions: Seq<SessionView>) -> nat {
    work_before(sessions, sessions.len())
}

/// Among the first `n` sessions there are at most `n` work sessions.
pub proof fn lemma_work_before_bounded(sessions: Seq<SessionView>, n: nat)
    ensures
        work_before(sessions, n) <= n,
    decreases n,
{
    if n > 0 && n <= sessions.len() {
        lemma_work_before_bounded(sessions, (n - 1) as nat);
    }
}

/// A longer prefix holds at least as many work sessions as a shorter one.
pub proof fn lemma_work_before_monotonic(sessions: Seq<SessionView>, m: nat, n: nat)
    requires
        m <= n <= sessions.len(),
    ensures
        work_before(sessions, m) <= work_before(sessions, n),
    decreases n,
{
    if m < n {
        lemma_work_before_monotonic(sessions, m, (n - 1) as nat);
    }
}

/// An ordered plan of sessions for one cycle.
#[derive(Debug)]
pub struct TimerPreset {
    pub title: String,
    pub sessions: Vec<Session>,
    /// Number of work sessions that make up one cycle. A cycle ends when this
    /// many work sessions are done, or when the list runs out.
    pub session_count: usize,
}

/// What a preset is, as plain values.
pub struct PresetView {
    pub title: Seq<char>,
    pub sessions: Seq<SessionView>,
    pub session_count: nat,
}

impl View for TimerPreset {
    type V = PresetView;

    open spec fn view(&self) -> PresetView {
        PresetView {
            title: self.title@,
            sessions: session_views(self.sessions@),
            session_count: self.session_count as nat,
        }
    }
}

/// The plan used when nothing else is configured: four focus sessions of 25
/// minutes with breaks of 5 minutes between them.
pub open spec fn default_preset() -> PresetView {
    let focus = SessionView { kind: SessionKind::Work, duration: 1500, title: "Focus"@ };
    let pause = SessionView { kind: SessionKind::Break, duration: 300, title: "Break"@ };
    PresetView {
        title: "Pomodoro"@,
        sessions: seq![focus, pause, focus, pause, focus, pause, focus],
        session_count: 4,
    }
}

impl Clone for TimerPreset {
    fn clone(&self) -> (copy: Self)
        ensures
            copy@ == self@,
    {
        let mut sessions: Vec<Session> = Vec::new();
        let mut i: usize = 0;
        while i < self.sessions.len()
            invariant
                i <= self.sessions.len(),
                sessions.len() == i,
                forall|j: int| 0 <= j < i ==> sessions@[j]@ == self.sessions@[j]@,
            decreases self.sessions.len() - i,
        {
            sessions.push(self.sessions[i].clone());
            i = i + 1;
        }
        assert(session_views(sessions@) =~= session_views(self.sessions@));
        TimerPreset { title: self.title.clone(), sessions, session_count: self.session_count }
    }
}

impl Default for TimerPreset {
    fn default() -> (preset: Self)
        ensures
            preset@ == default_preset(),
    {
        let mut sessions: Vec<Session> = Vec::new();
        sessions.push(Session::work("Focus", 1500));
        sessions.push(Session::rest("Break", 300));
        sessions.push(Session::work("Focus", 1500));
        sessions.push(Session::rest("Break", 300));
        sessions.push(Session::work("Focus", 1500));
        sessions.push(Session::rest("Break", 300));
        sessions.push(Session::work("Focus", 1500));
        assert(session_views(sessions@) =~= default_preset().sessions);
        TimerPreset { title: String::from_str("Pomodoro"), sessions, session_count: 4 }
    }
}

impl TimerPreset {
    /// A preset whose cycle is the whole list: its session count is the number
    /// of work sessions in the list.
    pub fn new(title: String, sessions: Vec<Session>) -> (preset: Self)
        ensures
            preset@ == (PresetView {
                title: title@,
                sessions: session_views(sessions@),
                session_count: work_total(session_views(sessions@)),
            }),
    {
        let session_count = count_work(&sessions);
        TimerPreset { title, sessions, session_count }
    }

    /// Seconds taken by all sessions of the list together.
    pub fn total_duration(&self) -> (total: u128)
        ensures
            total == total_seconds(self@.sessions),
    {
        let ghost views = self@.sessions;
        let mut total: u128 = 0;
        let mut i: usize = 0;
        while i < self.sessions.len()
            invariant
                i <= self.sessions.len(),
                views == session_views(self.sessions@),
                total == seconds_before(views, i as nat),
                total <= i * u64::MAX,
            decreases self.sessions.len() - i,
        {
            let duration: u64 = self.sessions[i].duration;
            proof {
                assert(views[i as int].duration == duration);
                assert(total + duration <= (i + 1) * u64::MAX <= u128::MAX) by (nonlinear_arith)
                    requires
                        total <= i * u64::MAX,
                        duration <= u64::MAX,
                        i < u64::MAX,
                ;
            }
            total = total + duration as u128;
            i = i + 1;
        }
        total
    }

    /// Number of work sessions in the list.
    pub fn work_sessions(&self) -> (count: usize)
        ensures
            count == work_total(self@.sessions),
    {
        count_work(&self.sessions)
    }
}

fn count_work(sessions: &Vec<Session>) -> (count: usize)
    ensures
        count == work_total(session_views(sessions@)),
{
    let ghost views = session_views(sessions@);
    let mut count: usize = 0;
    let mut i: usize = 0;
    while i < sessions.len()
        invariant
            i <= sessions.len(),
            views == session_views(sessions@),
            count == work_before(views, i as nat),
            count <= i,
        decreases sessions.len() - i,
    {
        assert(views[i as int] == sessions@[i as int]@);
        if sessions[i].is_work() {
            count = count + 1;
        }
        i = i + 1;
    }
    count
}

} // verus!
