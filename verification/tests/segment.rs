use ccometixline::segment::{circle_gauge, weekday_zh, Weekday};

#[test]
fn weekday_names() {
    assert_eq!(weekday_zh(Weekday::Mon), "周一");
    assert_eq!(weekday_zh(Weekday::Tue), "周二");
    assert_eq!(weekday_zh(Weekday::Wed), "周三");
    assert_eq!(weekday_zh(Weekday::Thu), "周四");
    assert_eq!(weekday_zh(Weekday::Fri), "周五");
    assert_eq!(weekday_zh(Weekday::Sat), "周六");
    assert_eq!(weekday_zh(Weekday::Sun), "周日");
}

#[test]
fn weekday_from_days_after_monday() {
    assert_eq!(Weekday::from_days_from_monday(0), Weekday::Mon);
    assert_eq!(Weekday::from_days_from_monday(6), Weekday::Sun);
    assert_eq!(Weekday::from_days_from_monday(9), Weekday::Wed);
}

#[test]
fn gauge_slices_by_level() {
    assert_eq!(circle_gauge(0), "\u{f0a9e}");
    assert_eq!(circle_gauge(12), "\u{f0a9e}");
    assert_eq!(circle_gauge(13), "\u{f0a9f}");
    assert_eq!(circle_gauge(25), "\u{f0a9f}");
    assert_eq!(circle_gauge(26), "\u{f0aa0}");
    assert_eq!(circle_gauge(38), "\u{f0aa1}");
    assert_eq!(circle_gauge(50), "\u{f0aa1}");
    assert_eq!(circle_gauge(51), "\u{f0aa2}");
    assert_eq!(circle_gauge(63), "\u{f0aa3}");
    assert_eq!(circle_gauge(75), "\u{f0aa3}");
    assert_eq!(circle_gauge(87), "\u{f0aa4}");
    assert_eq!(circle_gauge(88), "\u{f0aa5}");
    assert_eq!(circle_gauge(100), "\u{f0aa5}");
}
