//! The time segment: the local date, weekday and time of day.
use vstd::prelude::*;
use crate::clock::LocalTime;
use crate::config::SegmentId;
use crate::segment::{distinct_names, pairs_view, weekday_name, weekday_zh, Segment, SegmentData};
use crate::text::{pad2, pad2_string, push_char, push_str};

verus! {

/// The time segment.
pub struct TimeSegment;

/// `MM/DD 周X HH:MM` for a local time.
pub open spec fn time_text(now: LocalTime) -> Seq<char> {
    pad2(now.month as nat) + seq!['/'] + pad2(now.day as nat) + seq![' '] + weekday_name(
        now.weekday,
    ) + seq![' '] + pad2(now.hour as nat) + seq![':'] + pad2(now.minute as nat)
}

impl TimeSegment {
    /// The time segment.
    pub fn new() -> (r: Self) {
        Self
    }

    /// The segment's text at local time `now`: `MM/DD 周X HH:MM` as the
    /// primary part, nothing else.
    pub fn collect_at(&self, now: &LocalTime) -> (r: SegmentData)
        ensures
            r.primary@ == time_text(*now),
            r.secondary@ == Seq::<char>::empty(),
            r.metadata@.len() == 0,
            distinct_names(pairs_view(r.metadata@)),
    {
        let mut primary = pad2_string(now.month as u64);
        push_char(&mut primary, '/');
        let day = pad2_string(now.day as u64);
        push_str(&mut primary, day.as_str());
        push_char(&mut primary, ' ');
        push_str(&mut primary, weekday_zh(now.weekday));
        push_char(&mut primary, ' ');
        let hour = pad2_string(now.hour as u64);
        push_str(&mut primary, hour.as_str());
        push_char(&mut primary, ':');
        let minute = pad2_string(now.minute as u64);
        push_str(&mut primary, minute.as_str());
        SegmentData { primary, secondary: String::new(), metadata: Vec::new() }
    }
}

impl Default for TimeSegment {
    fn default() -> (r: Self) {
        Self::new()
    }
}

impl Segment for TimeSegment {
    fn id(&self) -> (r: SegmentId)
        ensures
            r == SegmentId::Time,
    {
        SegmentId::Time
    }
}

} // verus!
