use ccometixline::clock::{LocalTime, Timestamp};
use ccometixline::config::SegmentId;
use ccometixline::segment::{Segment, Weekday};
use ccometixline::time::TimeSegment;

fn local(month: u32, day: u32, hour: u32, minute: u32, weekday: Weekday) -> LocalTime {
    LocalTime {
        at: Timestamp { secs: 0, nanos: 0 },
        days_from_ce: 0,
        month,
        day,
        hour,
        minute,
        weekday,
    }
}

#[test]
fn date_weekday_and_time() {
    let d = TimeSegment::new().collect_at(&local(7, 5, 9, 3, Weekday::Sat));
    assert_eq!(d.primary, "07/05 周六 09:03");
    assert_eq!(d.secondary, "");
    assert!(d.metadata.is_empty());
    let d = TimeSegment::default().collect_at(&local(12, 31, 23, 59, Weekday::Wed));
    assert_eq!(d.primary, "12/31 周三 23:59");
    assert_eq!(TimeSegment::new().id(), SegmentId::Time);
}
