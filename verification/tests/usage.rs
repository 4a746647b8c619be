use ccometixline::clock::{LocalTime, Timestamp};
use ccometixline::config::{OptionValue, SegmentId};
use ccometixline::segment::{Segment, Weekday};
use ccometixline::theme_default::{git_segment, usage_segment};
use ccometixline::usage::{
    ApiUsageCache, ApiUsageResponse, DataSource, FetchPlan, RateLimitWindow, RateLimits, UsageData,
    UsagePeriod, UsageSegment, UsageWindow, Utilization,
};

// 2025-01-01T00:00:00Z
const T0: i64 = 1735689600;

fn at(secs: i64, days_from_ce: i32, month: u32, day: u32, hour: u32, minute: u32, weekday: Weekday) -> LocalTime {
    LocalTime { at: Timestamp { secs, nanos: 0 }, days_from_ce, month, day, hour, minute, weekday }
}

fn now() -> LocalTime {
    at(T0, 739252, 1, 1, 0, 0, Weekday::Wed)
}

fn labels(offset: i64, day_offset: i32, hour: u32, minute: u32, wd: Weekday, with_day_word: bool) -> (String, String) {
    let reset = at(T0 + offset, 739252 + day_offset, 1, 1 + day_offset.max(0) as u32, hour, minute, wd);
    UsageSegment::reset_labels(&reset, with_day_word, &now())
}

#[test]
fn countdown_scales_with_the_horizon() {
    assert_eq!(labels(38 * 60 + 59, 0, 0, 38, Weekday::Wed, false).0, "38m");
    assert_eq!(labels(4 * 3600 + 12 * 60, 0, 4, 12, Weekday::Wed, false).0, "4h12m");
    assert_eq!(labels(3600 + 5 * 60, 0, 1, 5, Weekday::Wed, false).0, "1h05m");
    assert_eq!(labels(3 * 86400 + 15 * 3600 + 59 * 60, 3, 15, 59, Weekday::Sat, false).0, "3d15h");
    assert_eq!(labels(-500, 0, 0, 0, Weekday::Wed, false).0, "0m");
    assert_eq!(labels(59, 0, 0, 0, Weekday::Wed, false).0, "0m");
}

#[test]
fn absolute_time_with_and_without_day_word() {
    assert_eq!(labels(4 * 3600 + 49 * 60, 0, 4, 49, Weekday::Wed, false).1, "04:49");
    assert_eq!(labels(4 * 3600 + 49 * 60, 0, 4, 49, Weekday::Wed, true).1, "今天 04:49");
    assert_eq!(labels(86400 + 18 * 3600, 1, 18, 0, Weekday::Thu, true).1, "明天 18:00");
    assert_eq!(labels(3 * 86400 + 18 * 3600, 3, 18, 0, Weekday::Sat, true).1, "周六 18:00");
    assert_eq!(labels(6 * 86400, 6, 0, 0, Weekday::Tue, true).1, "周二 00:00");
    assert_eq!(labels(11 * 86400 + 18 * 3600, 11, 18, 0, Weekday::Sun, true).1, "01/12 周日 18:00");
}

#[test]
fn reset_text_that_does_not_parse() {
    assert_eq!(UsageSegment::format_reset(None, true, &now()), None);
    assert_eq!(UsageSegment::format_reset(Some("not a time"), true, &now()), None);
}

#[test]
fn reset_text_countdown_is_independent_of_time_zone() {
    let r = UsageSegment::format_reset(Some("2025-01-01T04:12:30+00:00"), false, &now()).unwrap();
    assert_eq!(r.0, "4h12m");
    let r = UsageSegment::format_reset(Some("2025-01-01T05:12:30+01:00"), false, &now()).unwrap();
    assert_eq!(r.0, "4h12m");
}

fn util(color: u8, level: u8, rounded: u8) -> Utilization {
    Utilization { color, gauge_level: level, rounded }
}

#[test]
fn window_texts() {
    let absent = UsageSegment::window_text_with("5h", &None, None);
    assert_eq!(absent, "\x1b[38;5;245m5h -\x1b[0m");
    let w = Some(UsageWindow { util: util(108, 15, 15), reset: None });
    let unknown = UsageSegment::window_text_with("5h", &w, None);
    assert_eq!(unknown, "\x1b[38;5;245m5h \x1b[38;5;108m\u{f0a9f} 15%\x1b[0m \x1b[38;5;245m?\x1b[0m");
    let known = UsageSegment::window_text_with("7d", &w, Some(("3d15h".to_string(), "周六 18:00".to_string())));
    assert_eq!(
        known,
        "\x1b[38;5;245m7d \x1b[38;5;108m\u{f0a9f} 15%\x1b[0m \x1b[38;5;252m3d15h\x1b[0m \x1b[38;5;245m(周六 18:00)\x1b[0m"
    );
    let zero = Some(UsageWindow { util: util(108, 0, 0), reset: None });
    assert_ne!(UsageSegment::window_text_with("5h", &zero, None), absent);
}

#[test]
fn render_without_reset_times() {
    let data = UsageData {
        five_hour: Some(UsageWindow { util: util(179, 72, 72), reset: None }),
        seven_day: None,
        seven_day_fable: Some(UsageWindow { util: util(167, 90, 90), reset: None }),
    };
    let d = UsageSegment::new().render(&data, &now());
    assert_eq!(
        d.primary,
        "\x1b[38;5;245m5h \x1b[38;5;179m\u{f0aa3} 72%\x1b[0m \x1b[38;5;245m?\x1b[0m\x1b[90m · \x1b[0m\x1b[38;5;245m7d -\x1b[0m\x1b[90m · \x1b[0m\x1b[38;5;245mfable \x1b[38;5;167m\u{f0aa5} 90%\x1b[0m \x1b[38;5;245m?\x1b[0m"
    );
    assert_eq!(d.secondary, "");
    assert_eq!(d.metadata, vec![("dynamic_icon".to_string(), "\u{f0aa5}".to_string())]);
    let empty = UsageData::<Utilization> { five_hour: None, seven_day: None, seven_day_fable: None };
    let d = UsageSegment::new().render(&empty, &now());
    assert_eq!(d.primary, "\x1b[38;5;245m5h -\x1b[0m\x1b[90m · \x1b[0m\x1b[38;5;245m7d -\x1b[0m");
    assert_eq!(d.metadata[0].1, "\u{f0a9e}");
}

fn cache(cached_at: &str) -> ApiUsageCache<u32> {
    ApiUsageCache {
        five_hour_utilization: Some(15),
        five_hour_resets_at: Some("r5".to_string()),
        seven_day_utilization: None,
        resets_at: Some("r7".to_string()),
        cached_at: cached_at.to_string(),
    }
}

#[test]
fn cache_freshness() {
    let seg = UsageSegment::new();
    let c = cache("2025-01-01T00:00:00Z");
    assert!(seg.is_cache_valid(&c, 60, Timestamp { secs: T0 + 59, nanos: 999_999_999 }));
    assert!(!seg.is_cache_valid(&c, 60, Timestamp { secs: T0 + 60, nanos: 0 }));
    assert!(seg.is_cache_valid(&c, 60, Timestamp { secs: T0 - 1000, nanos: 0 }));
    assert!(!seg.is_cache_valid(&cache("yesterday"), 300, Timestamp { secs: T0, nanos: 0 }));
    assert!(!seg.is_cache_valid(&c, 0, Timestamp { secs: T0, nanos: 0 }));
}

#[test]
fn windows_from_input() {
    let limits = RateLimits {
        five_hour: Some(RateLimitWindow { used_percentage: Some(12u32), resets_at: Some(0) }),
        seven_day: Some(RateLimitWindow { used_percentage: None, resets_at: None }),
        seven_day_fable: None,
    };
    let d = UsageSegment::stdin_data(&limits, 0);
    let five = d.five_hour.unwrap();
    assert_eq!(five.util, 12);
    assert_eq!(five.reset.as_deref(), Some("1970-01-01T00:00:00+00:00"));
    let seven = d.seven_day.unwrap();
    assert_eq!((seven.util, seven.reset), (0, None));
    assert!(d.seven_day_fable.is_none());
}

#[test]
fn input_refreshes_a_stale_cache_only() {
    let seg = UsageSegment::new();
    let data = UsageData {
        five_hour: Some(UsageWindow { util: 3u32, reset: Some("a".to_string()) }),
        seven_day: None,
        seven_day_fable: Some(UsageWindow { util: 9, reset: None }),
    };
    let fresh = cache("2025-01-01T00:00:00Z");
    let now = Timestamp { secs: T0 + 30, nanos: 0 };
    assert!(seg.stdin_cache_update(&data, Some(&fresh), now, "N".to_string()).is_none());
    let later = Timestamp { secs: T0 + 600, nanos: 0 };
    let rec = seg.stdin_cache_update(&data, Some(&fresh), later, "N".to_string()).unwrap();
    assert_eq!(rec.five_hour_utilization, Some(3));
    assert_eq!(rec.five_hour_resets_at.as_deref(), Some("a"));
    assert_eq!(rec.seven_day_utilization, None);
    assert_eq!(rec.resets_at, None);
    assert_eq!(rec.cached_at, "N");
    assert!(seg.stdin_cache_update(&data, None, now, "N".to_string()).is_some());
}

#[test]
fn fresh_cache_is_served() {
    let seg = UsageSegment::new();
    let c = cache("2025-01-01T00:00:00Z");
    match seg.plan_fetch(Some(c), 300, Timestamp { secs: T0 + 100, nanos: 0 }) {
        FetchPlan::Serve(d) => {
            assert_eq!(d.five_hour.as_ref().unwrap().util, 15);
            assert_eq!(d.five_hour.unwrap().reset.as_deref(), Some("r5"));
            assert!(d.seven_day.is_none());
            assert!(d.seven_day_fable.is_none());
        }
        FetchPlan::Fetch(_) => panic!("expected the cache to be served"),
    }
    match seg.plan_fetch(Some(cache("2025-01-01T00:00:00Z")), 300, Timestamp { secs: T0 + 300, nanos: 0 }) {
        FetchPlan::Fetch(Some(c)) => assert_eq!(c.cached_at, "2025-01-01T00:00:00Z"),
        _ => panic!("expected a request"),
    }
    assert!(matches!(seg.plan_fetch::<u32>(None, 300, Timestamp { secs: T0, nanos: 0 }), FetchPlan::Fetch(None)));
}

#[test]
fn answer_is_cached_and_rendered() {
    let resp = ApiUsageResponse {
        five_hour: UsagePeriod { utilization: 20u32, resets_at: Some("x".to_string()) },
        seven_day: UsagePeriod { utilization: 40, resets_at: None },
    };
    let out = UsageSegment::after_fetch(Some(resp), Some(cache("old")), "NOW".to_string());
    let rec = out.save.unwrap();
    assert_eq!((rec.five_hour_utilization, rec.seven_day_utilization), (Some(20), Some(40)));
    assert_eq!(rec.five_hour_resets_at.as_deref(), Some("x"));
    assert_eq!(rec.cached_at, "NOW");
    let d = out.data.unwrap();
    assert_eq!(d.seven_day.unwrap().util, 40);
    assert!(d.seven_day_fable.is_none());
}

#[test]
fn failed_request_serves_and_refreshes_the_cache() {
    let out = UsageSegment::after_fetch::<u32>(None, Some(cache("old")), "NOW".to_string());
    let rec = out.save.unwrap();
    assert_eq!(rec.cached_at, "NOW");
    assert_eq!(rec.five_hour_utilization, Some(15));
    let d = out.data.unwrap();
    assert_eq!(d.five_hour.unwrap().util, 15);
    let out = UsageSegment::after_fetch::<u32>(None, None, "NOW".to_string());
    assert!(out.save.is_none() && out.data.is_none());
}

#[test]
fn settings_from_configuration() {
    let s = UsageSegment::settings(&vec![git_segment(), usage_segment()]);
    assert_eq!(s.api_base_url, "https://api.anthropic.com");
    assert_eq!((s.cache_duration, s.timeout), (180, 2));
    let s = UsageSegment::settings(&vec![git_segment()]);
    assert_eq!((s.cache_duration, s.timeout), (300, 2));
    let mut u = usage_segment();
    u.options = vec![
        ("api_base_url".to_string(), OptionValue::Text("http://localhost".to_string())),
        ("cache_duration".to_string(), OptionValue::Other),
        ("timeout".to_string(), OptionValue::Number(9)),
    ];
    let s = UsageSegment::settings(&vec![u, usage_segment()]);
    assert_eq!(s.api_base_url, "http://localhost");
    assert_eq!((s.cache_duration, s.timeout), (300, 9));
    assert_eq!(UsageSegment::new().id(), SegmentId::Usage);
}

#[test]
fn refreshed_cache_is_fresh_at_once() {
    let seg = UsageSegment::new();
    let now = Timestamp { secs: T0 + 7200, nanos: 5 };
    let out = UsageSegment::after_fetch::<u32>(None, Some(cache("2024-01-01T00:00:00Z")), "2025-01-01T02:00:00.000000005Z".to_string());
    let rec = out.save.unwrap();
    assert!(seg.is_cache_valid(&rec, 1, now));
    assert!(matches!(seg.plan_fetch(Some(rec), 300, now), FetchPlan::Serve(_)));
}

#[test]
fn data_source_prefers_the_input() {
    let some: Option<RateLimits<u32>> = Some(RateLimits { five_hour: None, seven_day: None, seven_day_fable: None });
    assert_eq!(UsageSegment::data_source(&some), DataSource::Input);
    assert_eq!(UsageSegment::data_source::<u32>(&None), DataSource::Api);
}

#[test]
fn proxy_setting_that_wins() {
    let https = OptionValue::Text("http://secure:1".to_string());
    let http = OptionValue::Text("http://plain:2".to_string());
    let flag = OptionValue::Bool(true);
    assert_eq!(UsageSegment::pick_proxy(Some(&https), Some(&http)).as_deref(), Some("http://secure:1"));
    assert_eq!(UsageSegment::pick_proxy(None, Some(&http)).as_deref(), Some("http://plain:2"));
    assert_eq!(UsageSegment::pick_proxy(Some(&flag), Some(&http)), None);
    assert_eq!(UsageSegment::pick_proxy(None, None), None);
}

#[test]
fn user_agent_from_npm_output() {
    assert_eq!(UsageSegment::user_agent("tool", true, b"  2.1.80\n"), "tool/2.1.80");
    assert_eq!(UsageSegment::user_agent("tool", true, b" \n\t"), "tool");
    assert_eq!(UsageSegment::user_agent("tool", false, b"2.1.80\n"), "tool");
    assert_eq!(UsageSegment::user_agent("tool", true, b"1.\xff\n"), "tool/1.\u{fffd}");
}

fn days_before_year(y: i64) -> i64 {
    let p = y - 1;
    365 * p + p.div_euclid(4) - p.div_euclid(100) + p.div_euclid(400)
}

fn is_leap(y: i64) -> bool {
    (y % 4 == 0 && y % 100 != 0) || y % 400 == 0
}

/// Year, month and day of day number `d` (January 1 of year 1 is day 1).
fn gregorian(d: i64) -> (i64, u32, u32) {
    let mut y = d.div_euclid(366);
    while days_before_year(y + 1) < d {
        y += 1;
    }
    let mut rest = d - days_before_year(y);
    let lengths = [31, if is_leap(y) { 29 } else { 28 }, 31, 30, 31, 30, 31, 31, 30, 31, 30, 31];
    let mut m = 1u32;
    while rest > lengths[(m - 1) as usize] {
        rest -= lengths[(m - 1) as usize];
        m += 1;
    }
    (y, m, rest as u32)
}

#[test]
fn gregorian_reference_dates() {
    assert_eq!(gregorian(1), (1, 1, 1));
    assert_eq!(gregorian(719163), (1970, 1, 1));
    assert_eq!(gregorian(739252), (2025, 1, 1));
    assert_eq!(gregorian(739252 + 59), (2025, 3, 1));
    assert_eq!(gregorian(730179), (2000, 2, 29));
}

#[test]
fn local_time_fields_fit_the_instant() {
    for secs in [0i64, T0, T0 + 86399, T0 + 59 * 86400, 951782400, -86400 * 400, 253402300799] {
        let l = LocalTime::at_instant(Timestamp { secs, nanos: 0 }).unwrap();
        let (y, m, d) = gregorian(l.days_from_ce as i64);
        assert_eq!((l.month, l.day), (m, d), "date {} of year {}", l.days_from_ce, y);
        assert!(l.hour < 24 && l.minute < 60);
        assert_eq!(l.weekday, Weekday::from_days_from_monday(((l.days_from_ce as i64 - 1).rem_euclid(7)) as u32));
        let local = (l.days_from_ce as i64 - 719163) * 86400 + l.hour as i64 * 3600 + l.minute as i64 * 60;
        assert!((local - secs).abs() < 86460);
    }
}

#[test]
fn input_reset_text_reads_back_as_its_instant() {
    for e in [T0, 0, -62167219200, 253402300799] {
        let w = UsageSegment::window_from_limit(&RateLimitWindow { used_percentage: Some(5.0), resets_at: Some(e) }, 0.0);
        let text = w.reset.expect("a reset text");
        let back = chrono::DateTime::parse_from_rfc3339(&text).unwrap();
        assert_eq!((back.timestamp(), back.timestamp_subsec_nanos()), (e, 0));
    }
    let w = UsageSegment::window_from_limit(&RateLimitWindow { used_percentage: None, resets_at: Some(T0) }, 0.0);
    assert_eq!(w.reset.as_deref(), Some("2025-01-01T00:00:00+00:00"));
}

#[test]
fn countdown_follows_the_reset_instant() {
    let w = UsageSegment::window_from_limit(&RateLimitWindow { used_percentage: Some(5.0), resets_at: Some(T0 + 3 * 3600 + 7 * 60) }, 0.0);
    let (countdown, _) = UsageSegment::format_reset(w.reset.as_deref(), true, &now()).unwrap();
    assert_eq!(countdown, "3h07m");
}

#[test]
fn proxy_from_settings_text() {
    let both = r#"{"env": {"HTTPS_PROXY": "http://secure:1", "HTTP_PROXY": "http://plain:2"}}"#;
    assert_eq!(UsageSegment::proxy_from_settings(both).as_deref(), Some("http://secure:1"));
    let plain = r#"{"model": "x", "env": {"HTTP_PROXY": "http://plain:2"}}"#;
    assert_eq!(UsageSegment::proxy_from_settings(plain).as_deref(), Some("http://plain:2"));
    let not_text = r#"{"env": {"HTTPS_PROXY": 8080, "HTTP_PROXY": "http://plain:2"}}"#;
    assert_eq!(UsageSegment::proxy_from_settings(not_text), None);
    assert_eq!(UsageSegment::proxy_from_settings(r#"{"env": {}}"#), None);
    assert_eq!(UsageSegment::proxy_from_settings(r#"{"HTTPS_PROXY": "http://secure:1"}"#), None);
    assert_eq!(UsageSegment::proxy_from_settings("not json"), None);
}
