use bmo::events::navigation::{NavigationEvent, Screen};
use bmo::session::{Session, SessionKind, TimerPreset};

#[test]
fn work_and_rest_build_sessions() {
    let focus = Session::work("Focus", 1500);
    assert_eq!(focus.kind, SessionKind::Work);
    assert_eq!(focus.duration, 1500);
    assert_eq!(focus.title, "Focus");
    assert!(focus.is_work());

    let pause = Session::rest("Break", 300);
    assert_eq!(pause.kind, SessionKind::Break);
    assert_eq!(pause.duration, 300);
    assert_eq!(pause.title, "Break");
    assert!(!pause.is_work());
}

#[test]
fn session_clone_is_equal() {
    let focus = Session::work("Focus", 1500);
    let copy = focus.clone();
    assert_eq!(copy.kind, SessionKind::Work);
    assert_eq!(copy.duration, 1500);
    assert_eq!(copy.title, "Focus");
}

#[test]
fn default_preset_is_four_focus_sessions_with_breaks_between() {
    let preset = TimerPreset::default();
    assert_eq!(preset.title, "Pomodoro");
    assert_eq!(preset.session_count, 4);
    assert_eq!(preset.sessions.len(), 7);
    for (index, session) in preset.sessions.iter().enumerate() {
        if index % 2 == 0 {
            assert_eq!(session.kind, SessionKind::Work);
            assert_eq!(session.duration, 1500);
            assert_eq!(session.title, "Focus");
        } else {
            assert_eq!(session.kind, SessionKind::Break);
            assert_eq!(session.duration, 300);
            assert_eq!(session.title, "Break");
        }
    }
    assert_eq!(preset.work_sessions(), 4);
    assert_eq!(preset.total_duration(), 6900);
}

#[test]
fn new_preset_counts_its_work_sessions() {
    let preset = TimerPreset::new(
        String::from("mixed"),
        vec![
            Session::rest("a", 1),
            Session::work("b", 2),
            Session::work("c", 3),
            Session::rest("d", 4),
            Session::work("e", 5),
        ],
    );
    assert_eq!(preset.title, "mixed");
    assert_eq!(preset.sessions.len(), 5);
    assert_eq!(preset.session_count, 3);
    assert_eq!(preset.work_sessions(), 3);
    assert_eq!(preset.total_duration(), 15);
}

#[test]
fn empty_preset_has_no_length() {
    let preset = TimerPreset::new(String::from("nothing"), vec![]);
    assert_eq!(preset.session_count, 0);
    assert_eq!(preset.work_sessions(), 0);
    assert_eq!(preset.total_duration(), 0);
}

#[test]
fn work_sessions_are_counted_whatever_the_session_count() {
    let preset = TimerPreset {
        title: String::from("odd"),
        sessions: vec![Session::work("a", 1), Session::rest("b", 1)],
        session_count: 9,
    };
    assert_eq!(preset.work_sessions(), 1);
    assert_eq!(preset.session_count, 9);
}

#[test]
fn total_duration_does_not_overflow() {
    let preset = TimerPreset::new(
        String::from("long"),
        vec![
            Session::work("a", u64::MAX),
            Session::rest("b", u64::MAX),
            Session::work("c", 1),
        ],
    );
    assert_eq!(preset.total_duration(), 2 * (u64::MAX as u128) + 1);
}

#[test]
fn preset_clone_is_equal() {
    let preset = TimerPreset::default();
    let copy = preset.clone();
    assert_eq!(copy.title, preset.title);
    assert_eq!(copy.session_count, preset.session_count);
    assert_eq!(copy.sessions.len(), preset.sessions.len());
    for (a, b) in copy.sessions.iter().zip(preset.sessions.iter()) {
        assert_eq!(a.kind, b.kind);
        assert_eq!(a.duration, b.duration);
        assert_eq!(a.title, b.title);
    }
}

#[test]
fn application_opens_on_the_timer() {
    assert_eq!(Screen::default(), Screen::Timer);
}

#[test]
fn navigation_goes_where_the_event_says() {
    let to_settings = NavigationEvent { screen: Screen::Settings };
    let to_timer = NavigationEvent { screen: Screen::Timer };
    assert_eq!(Screen::Timer.navigate(to_settings), Screen::Settings);
    assert_eq!(Screen::Settings.navigate(to_settings), Screen::Settings);
    assert_eq!(Screen::Settings.navigate(to_timer), Screen::Timer);
    assert_eq!(Screen::Timer.navigate(to_timer), Screen::Timer);
}
