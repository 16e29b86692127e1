use std::collections::hash_map::DefaultHasher;
use std::hash::{Hash, Hasher};

use bmo::components::timeline::{TimeLine, CHANNEL_MIN, CHANNEL_SPAN};
use bmo::session::{Session, TimerPreset};

/// The colour as the standard library's hashing of a title and a position
/// gives it, with the channels taken by shifting and masking.
fn color_by_std_hash(title: &str, index: usize) -> u32 {
    let mut hasher = DefaultHasher::new();
    title.hash(&mut hasher);
    index.hash(&mut hasher);
    let hash = hasher.finish();
    let r = ((hash >> 0) & 0xFF) as u8;
    let g = ((hash >> 8) & 0xFF) as u8;
    let b = ((hash >> 16) & 0xFF) as u8;
    let r = 30 + (r as u32 * 120 / 255) as u8;
    let g = 30 + (g as u32 * 120 / 255) as u8;
    let b = 30 + (b as u32 * 120 / 255) as u8;
    ((r as u32) << 16) | ((g as u32) << 8) | (b as u32)
}

fn channels(color: u32) -> [u32; 3] {
    [(color >> 16) & 0xFF, (color >> 8) & 0xFF, color & 0xFF]
}

#[test]
fn new_timeline_is_empty() {
    let timeline = TimeLine::new();
    assert_eq!(timeline.active_index, 0);
    assert_eq!(timeline.total_duration, 0);
    assert!(timeline.segments.is_empty());
}

#[test]
fn colors_have_their_exact_values() {
    assert_eq!(TimeLine::generate_color_for_segment("Focus", 0), 0x468c4c);
    assert_eq!(TimeLine::generate_color_for_segment("Break", 1), 0x4b567e);
    assert_eq!(TimeLine::generate_color_for_segment("Focus", 2), 0x37553e);
    assert_eq!(TimeLine::generate_color_for_segment("", 0), 0x88497a);
    assert_eq!(TimeLine::generate_color_for_segment("Deep work", 3), 0x48753a);
    assert_eq!(TimeLine::generate_color_for_segment("Pause café", 1), 0x237171);
}

#[test]
fn colors_agree_with_hashing_title_and_position() {
    let titles = ["", "Focus", "Break", "Long break", "Deep work", "Pause café", "集中"];
    for title in titles {
        for index in [0usize, 1, 2, 3, 7, 255, 256, 65_535, 1_000_000, usize::MAX] {
            assert_eq!(
                TimeLine::generate_color_for_segment(title, index),
                color_by_std_hash(title, index),
                "title {:?}, position {}",
                title,
                index
            );
        }
    }
}

#[test]
fn colors_are_muted() {
    assert_eq!(CHANNEL_MIN, 30);
    assert_eq!(CHANNEL_MIN + CHANNEL_SPAN, 150);
    for index in 0..500usize {
        let title = format!("session {}", index % 17);
        let color = TimeLine::generate_color_for_segment(&title, index);
        assert!(color <= 0xFF_FFFF);
        for channel in channels(color) {
            assert!((30..=150).contains(&channel), "channel {} of {:#x}", channel, color);
        }
    }
}

#[test]
fn color_depends_on_the_position() {
    assert_ne!(
        TimeLine::generate_color_for_segment("Focus", 0),
        TimeLine::generate_color_for_segment("Focus", 2)
    );
}

#[test]
fn color_depends_on_the_title() {
    assert_ne!(
        TimeLine::generate_color_for_segment("Focus", 1),
        TimeLine::generate_color_for_segment("Break", 1)
    );
}

#[test]
fn project_gives_one_segment_for_each_session() {
    let preset = TimerPreset::default();
    let segments = TimeLine::project(&preset);
    assert_eq!(segments.len(), 7);
    for (index, segment) in segments.iter().enumerate() {
        let session = &preset.sessions[index];
        assert_eq!(segment.duration, session.duration);
        assert_eq!(segment.title, session.title);
        assert_eq!(segment.color, TimeLine::generate_color_for_segment(&session.title, index));
    }
    assert_eq!(segments[0].title, "Focus");
    assert_eq!(segments[0].duration, 1500);
    assert_eq!(segments[0].color, 0x468c4c);
    assert_eq!(segments[1].title, "Break");
    assert_eq!(segments[1].duration, 300);
    assert_eq!(segments[1].color, 0x4b567e);
    assert_eq!(segments[2].color, 0x37553e);
}

#[test]
fn project_is_deterministic() {
    let preset = TimerPreset::default();
    let first: Vec<u32> = TimeLine::project(&preset).iter().map(|s| s.color).collect();
    let second: Vec<u32> = TimeLine::project(&preset).iter().map(|s| s.color).collect();
    assert_eq!(first, second);
    let copy = preset.clone();
    let third: Vec<u32> = TimeLine::project(&copy).iter().map(|s| s.color).collect();
    assert_eq!(first, third);
}

#[test]
fn colors_do_not_depend_on_kind_or_length() {
    let first = TimerPreset::new(
        String::from("a"),
        vec![Session::work("one", 10), Session::rest("two", 20)],
    );
    let second = TimerPreset::new(
        String::from("b"),
        vec![Session::rest("one", 99), Session::work("two", 1)],
    );
    let left: Vec<u32> = TimeLine::project(&first).iter().map(|s| s.color).collect();
    let right: Vec<u32> = TimeLine::project(&second).iter().map(|s| s.color).collect();
    assert_eq!(left, right);
}

#[test]
fn project_of_an_empty_preset_is_empty() {
    let preset = TimerPreset::new(String::from("nothing"), vec![]);
    assert!(TimeLine::project(&preset).is_empty());
}

#[test]
fn update_segments_of_an_empty_preset() {
    let mut timeline = TimeLine::new();
    timeline.update_segments(&TimerPreset::default());
    assert_eq!(timeline.segments.len(), 7);
    timeline.update_segments(&TimerPreset::new(String::from("nothing"), vec![]));
    assert!(timeline.segments.is_empty());
    assert_eq!(timeline.total_duration, 0);
}

#[test]
fn update_segments_replaces_segments_and_total() {
    let mut timeline = TimeLine::new();
    timeline.set_active_index(3);
    timeline.update_segments(&TimerPreset::default());
    assert_eq!(timeline.active_index, 3);
    assert_eq!(timeline.total_duration, 6900);
    assert_eq!(timeline.segments.len(), 7);
    assert_eq!(timeline.segments[6].title, "Focus");
    assert_eq!(timeline.segments[6].color, TimeLine::generate_color_for_segment("Focus", 6));

    let short = TimerPreset::new(String::from("short"), vec![Session::work("only", 5)]);
    timeline.update_segments(&short);
    assert_eq!(timeline.active_index, 3);
    assert_eq!(timeline.total_duration, 5);
    assert_eq!(timeline.segments.len(), 1);
    assert_eq!(timeline.segments[0].title, "only");
    assert_eq!(timeline.segments[0].duration, 5);
}

#[test]
fn active_index_is_what_was_set() {
    let mut timeline = TimeLine::new();
    timeline.update_segments(&TimerPreset::default());
    assert!(timeline.is_active(0));
    assert!(!timeline.is_active(1));
    timeline.set_active_index(4);
    assert!(timeline.is_active(4));
    assert!(!timeline.is_active(0));
    assert_eq!(timeline.segments.len(), 7);
    assert_eq!(timeline.total_duration, 6900);
}
