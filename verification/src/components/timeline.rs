//! The timeline: one coloured segment for each session of a preset.
//!
//! A segment's colour is derived from the session's title and position alone,
//! so the same plan is always drawn in the same colours. The title's bytes, a
//! separator byte and the position as eight little-endian bytes are fed to the
//! standard library's default hasher; the three low bytes of the digest are
//! each mapped into a muted range and packed as `0xRRGGBB`.

use std::collections::hash_map::DefaultHasher;
use std::hash::Hasher;
use vstd::prelude::*;
use vstd::std_specs::hash::DefaultHasherAdditionalSpecFns;
use vstd::utf8::encode_utf8;

use crate::session::{session_views, total_seconds, SessionView, TimerPreset};

verus! {

/// Lowest value that a colour channel takes.
pub const CHANNEL_MIN: u32 = 30;

/// Width of the range of a colour channel: the highest value is
/// `CHANNEL_MIN + CHANNEL_SPAN`.
pub const CHANNEL_SPAN: u32 = 120;

/// A position as eight bytes, least significant first.
pub open spec fn index_bytes(index: nat) -> Seq<u8> {
    seq![
        (index % 0x100) as u8,
        (index / 0x100 % 0x100) as u8,
        (index / 0x1_0000 % 0x100) as u8,
        (index / 0x100_0000 % 0x100) as u8,
        (index / 0x1_0000_0000 % 0x100) as u8,
        (index / 0x100_0000_0000 % 0x100) as u8,
        (index / 0x1_0000_0000_0000 % 0x100) as u8,
        (index / 0x100_0000_0000_0000 % 0x100) as u8,
    ]
}

/// What is written to the hasher for a title and a position: the title in
/// UTF-8, then a byte that no UTF-8 text holds followed by the position.
pub open spec fn hash_input(title: Seq<char>, index: nat) -> Seq<Seq<u8>> {
    seq![encode_utf8(title), seq![0xffu8] + index_bytes(index)]
}

/// The digest of a title and a position.
pub open spec fn segment_hash(title: Seq<char>, index: nat) -> u64 {
    DefaultHasher::spec_finish(hash_input(title, index))
}

/// A byte mapped linearly from `0..=255` into the muted channel range.
pub open spec fn muted(byte: nat) -> nat {
    CHANNEL_MIN as nat + byte * CHANNEL_SPAN as nat / 255
}

/// The red channel of a packed colour.
pub open spec fn red(color: u32) -> nat {
    (color / 0x1_0000 % 0x100) as nat
}

/// The green channel of a packed colour.
pub open spec fn green(color: u32) -> nat {
    (color / 0x100 % 0x100) as nat
}

/// The blue channel of a packed colour.
pub open spec fn blue(color: u32) -> nat {
    (color % 0x100) as nat
}

/// The colour that a digest stands for: red from its lowest byte, green from
/// the next, blue from the third, each muted, packed as `0xRRGGBB`.
pub open spec fn color_of_hash(hash: u64) -> u32 {
    (muted((hash % 0x100) as nat) * 0x1_0000 + muted((hash / 0x100 % 0x100) as nat) * 0x100
        + muted((hash / 0x1_0000 % 0x100) as nat)) as u32
}

/// The colour of the segment with the given title at the given position.
pub open spec fn segment_color(title: Seq<char>, index: nat) -> u32 {
    color_of_hash(segment_hash(title, index))
}

/// Whether every channel of a packed colour lies in the muted range and
/// nothing is set above the three channels.
pub open spec fn is_muted(color: u32) -> bool {
    &&& CHANNEL_MIN <= red(color) <= CHANNEL_MIN + CHANNEL_SPAN
    &&& CHANNEL_MIN <= green(color) <= CHANNEL_MIN + CHANNEL_SPAN
    &&& CHANNEL_MIN <= blue(color) <= CHANNEL_MIN + CHANNEL_SPAN
    &&& color < 0x100_0000
}

/// A muted byte lies in the channel range.
pub proof fn lemma_muted_in_range(byte: nat)
    requires
        byte < 0x100,
    ensures
        CHANNEL_MIN <= muted(byte) <= CHANNEL_MIN + CHANNEL_SPAN,
{
}

/// Three channels packed into one number can be read back from it.
pub proof fn lemma_channels_of_packed(r: nat, g: nat, b: nat)
    requires
        r < 0x100,
        g < 0x100,
        b < 0x100,
    ensures
        r * 0x1_0000 + g * 0x100 + b < 0x100_0000,
        (r * 0x1_0000 + g * 0x100 + b) / 0x1_0000 % 0x100 == r,
        (r * 0x1_0000 + g * 0x100 + b) / 0x100 % 0x100 == g,
        (r * 0x1_0000 + g * 0x100 + b) % 0x100 == b,
{
    let packed = r * 0x1_0000 + g * 0x100 + b;
    assert(packed / 0x1_0000 == r);
    assert(packed / 0x100 == r * 0x100 + g);
}

/// Every digest stands for a muted colour, and the channels of that colour
/// are the muted bytes of the digest.
pub proof fn lemma_color_of_hash_is_muted(hash: u64)
    ensures
        is_muted(color_of_hash(hash)),
        red(color_of_hash(hash)) == muted((hash % 0x100) as nat),
        green(color_of_hash(hash)) == muted((hash / 0x100 % 0x100) as nat),
        blue(color_of_hash(hash)) == muted((hash / 0x1_0000 % 0x100) as nat),
{
    let r = muted((hash % 0x100) as nat);
    let g = muted((hash / 0x100 % 0x100) as nat);
    let b = muted((hash / 0x1_0000 % 0x100) as nat);
    lemma_muted_in_range((hash % 0x100) as nat);
    lemma_muted_in_range((hash / 0x100 % 0x100) as nat);
    lemma_muted_in_range((hash / 0x1_0000 % 0x100) as nat);
    lemma_channels_of_packed(r, g, b);
    assert(color_of_hash(hash) == r * 0x1_0000 + g * 0x100 + b);
}

/// One session as the timeline shows it.
#[derive(Debug)]
pub struct TimeLineSegment {
    /// Length of the session in seconds.
    pub duration: u64,
    pub title: String,
    /// Colour of the segment, packed as `0xRRGGBB`.
    pub color: u32,
}

/// What a segment is, as plain values.
pub struct SegmentView {
    pub duration: nat,
    pub title: Seq<char>,
    pub color: u32,
}

impl View for TimeLineSegment {
    type V = SegmentView;

    open spec fn view(&self) -> SegmentView {
        SegmentView { duration: self.duration as nat, title: self.title@, color: self.color }
    }
}

/// The segments of a list, each as plain values.
pub open spec fn segment_views(segments: Seq<TimeLineSegment>) -> Seq<SegmentView> {
    Seq::new(segments.len(), |i: int| segments[i]@)
}

/// The segments drawn for a list of sessions: one for each session, in
/// order, with the session's length and title and the colour of its title
/// and position.
pub open spec fn projection(sessions: Seq<SessionView>) -> Seq<SegmentView> {
    Seq::new(
        sessions.len(),
        |i: int|
            SegmentView {
                duration: sessions[i].duration,
                title: sessions[i].title,
                color: segment_color(sessions[i].title, i as nat),
            },
    )
}

/// The colours of a list of segments, in order.
pub open spec fn colors(segments: Seq<SegmentView>) -> Seq<u32> {
    Seq::new(segments.len(), |i: int| segments[i].color)
}

/// The segments of a preset, with the segment that is shown as current.
#[derive(Debug)]
pub struct TimeLine {
    /// Position of the segment that is drawn with emphasis. It only serves
    /// the drawing and says nothing about time.
    pub active_index: usize,
    /// Seconds taken by all segments together.
    pub total_duration: u128,
    pub segments: Vec<TimeLineSegment>,
}

fn muted_channel(byte: u64) -> (channel: u32)
    requires
        byte < 0x100,
    ensures
        channel == muted(byte as nat),
        CHANNEL_MIN <= channel <= CHANNEL_MIN + CHANNEL_SPAN,
{
    CHANNEL_MIN + (byte as u32) * CHANNEL_SPAN / 255
}

fn color_from_hash(hash: u64) -> (color: u32)
    ensures
        color == color_of_hash(hash),
        is_muted(color),
{
    let r: u32 = muted_channel(hash % 0x100);
    let g: u32 = muted_channel(hash / 0x100 % 0x100);
    let b: u32 = muted_channel(hash / 0x1_0000 % 0x100);
    proof {
        lemma_color_of_hash_is_muted(hash);
    }
    r * 0x1_0000 + g * 0x100 + b
}

fn index_tail(index: usize) -> (tail: Vec<u8>)
    ensures
        tail@ == seq![0xffu8] + index_bytes(index as nat),
{
    let wide: u64 = index as u64;
    let mut tail: Vec<u8> = Vec::new();
    tail.push(0xffu8);
    tail.push((wide % 0x100) as u8);
    tail.push((wide / 0x100 % 0x100) as u8);
    tail.push((wide / 0x1_0000 % 0x100) as u8);
    tail.push((wide / 0x100_0000 % 0x100) as u8);
    tail.push((wide / 0x1_0000_0000 % 0x100) as u8);
    tail.push((wide / 0x100_0000_0000 % 0x100) as u8);
    tail.push((wide / 0x1_0000_0000_0000 % 0x100) as u8);
    tail.push((wide / 0x100_0000_0000_0000 % 0x100) as u8);
    assert(tail@ =~= seq![0xffu8] + index_bytes(index as nat));
    tail
}

impl TimeLine {
    /// A timeline without segments.
    pub fn new() -> (timeline: Self)
        ensures
            timeline.active_index == 0,
            timeline.total_duration == 0,
            timeline.segments@ == Seq::<TimeLineSegment>::empty(),
    {
        TimeLine { active_index: 0, total_duration: 0, segments: Vec::new() }
    }

    /// The colour of the segment with the given title at the given position.
    /// It depends on nothing else, and each of its channels lies in the muted
    /// range.
    pub fn generate_color_for_segment(title: &str, index: usize) -> (color: u32)
        ensures
            color == segment_color(title@, index as nat),
            is_muted(color),
    {
        let mut hasher = DefaultHasher::new();
        hasher.write(title.as_bytes());
        let tail: Vec<u8> = index_tail(index);
        hasher.write(tail.as_slice());
        let hash: u64 = hasher.finish();
        assert(hasher@ =~= hash_input(title@, index as nat));
        color_from_hash(hash)
    }

    /// The segments drawn for a preset: one for each of its sessions, in
    /// order. A preset without sessions gives no segments.
    pub fn project(preset: &TimerPreset) -> (segments: Vec<TimeLineSegment>)
        ensures
            segment_views(segments@) == projection(preset@.sessions),
            segments@.len() == preset.sessions@.len(),
    {
        let ghost sessions = preset@.sessions;
        let mut segments: Vec<TimeLineSegment> = Vec::new();
        let mut index: usize = 0;
        while index < preset.sessions.len()
            invariant
                index <= preset.sessions.len(),
                sessions == session_views(preset.sessions@),
                segments.len() == index,
                forall|j: int| 0 <= j < index ==> segments@[j]@ == #[trigger] projection(sessions)[j],
            decreases preset.sessions.len() - index,
        {
            let session = &preset.sessions[index];
            assert(sessions[index as int] == session@);
            let color: u32 = Self::generate_color_for_segment(session.title.as_str(), index);
            segments.push(
                TimeLineSegment { duration: session.duration, title: session.title.clone(), color },
            );
            index = index + 1;
        }
        assert(segment_views(segments@) =~= projection(sessions));
        segments
    }

    /// Replaces the segments by those of the given preset and records the
    /// preset's total length. The current position is kept as it is.
    pub fn update_segments(&mut self, preset: &TimerPreset)
        ensures
            segment_views(final(self).segments@) == projection(preset@.sessions),
            final(self).segments@.len() == preset.sessions@.len(),
            final(self).total_duration == total_seconds(preset@.sessions),
            final(self).active_index == old(self).active_index,
    {
        self.total_duration = preset.total_duration();
        self.segments = Self::project(preset);
    }

    /// Marks the segment at the given position as the current one.
    pub fn set_active_index(&mut self, index: usize)
        ensures
            final(self).active_index == index,
            final(self).total_duration == old(self).total_duration,
            final(self).segments == old(self).segments,
    {
        self.active_index = index;
    }

    /// Whether the segment at the given position is the current one.
    pub fn is_active(&self, index: usize) -> (active: bool)
        ensures
            active == (index == self.active_index),
    {
        index == self.active_index
    }
}

/// Projecting is a function of the plan: two lists of sessions with the same
/// contents give the same segments, and so the same colours in the same
/// order.
pub proof fn lemma_projection_deterministic(first: Seq<SessionView>, second: Seq<SessionView>)
    requires
        first =~= second,
    ensures
        projection(first) == projection(second),
        colors(projection(first)) == colors(projection(second)),
{
}

/// The colours depend on the titles and their positions only: two lists of
/// the same length whose sessions have the same titles at the same positions
/// are drawn in the same colours, whatever their kinds and lengths.
pub proof fn lemma_colors_depend_on_titles(first: Seq<SessionView>, second: Seq<SessionView>)
    requires
        first.len() == second.len(),
        forall|i: int| 0 <= i < first.len() ==> first[i].title == second[i].title,
    ensures
        colors(projection(first)) == colors(projection(second)),
{
    assert(colors(projection(first)) =~= colors(projection(second)));
}

/// Every segment of a projection has a muted colour.
pub proof fn lemma_projection_is_muted(sessions: Seq<SessionView>, i: int)
    requires
        0 <= i < sessions.len(),
    ensures
        is_muted(projection(sessions)[i].color),
{
    lemma_color_of_hash_is_muted(segment_hash(sessions[i].title, i as nat));
}

/// A list without sessions is drawn without segments.
pub proof fn lemma_projection_of_nothing()
    ensures
        projection(Seq::<SessionView>::empty()) == Seq::<SegmentView>::empty(),
{
    assert(projection(Seq::<SessionView>::empty()) =~= Seq::<SegmentView>::empty());
}

} // verus!
