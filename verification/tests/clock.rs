use ccometixline::clock::{minutes_between_exec, seconds_between_exec, Timestamp};

fn chrono_at(t: Timestamp) -> chrono::DateTime<chrono::Utc> {
    chrono::DateTime::from_timestamp(t.secs, t.nanos).unwrap()
}

#[test]
fn differences_agree_with_chrono() {
    let base: i64 = 1735689599; // 2024-12-31T23:59:59Z, a second ending in :59
    let mut instants = Vec::new();
    for secs in [base - 86400 * 3 - 1, base - 61, base - 1, base, base + 1, base + 59, base + 86400, base + 86401 * 2] {
        for nanos in [0u32, 1, 499_999_999, 999_999_999] {
            instants.push(Timestamp { secs, nanos });
        }
    }
    // Leap seconds: nanoseconds past 999,999,999 on seconds ending in :59.
    for secs in [base, base - 60, base + 86400] {
        for nanos in [1_000_000_000u32, 1_500_000_000, 1_999_999_999] {
            instants.push(Timestamp { secs, nanos });
        }
    }
    for &a in &instants {
        for &b in &instants {
            let d = chrono_at(a) - chrono_at(b);
            assert_eq!(seconds_between_exec(a, b), d.num_seconds() as i128, "{a:?} - {b:?}");
            assert_eq!(minutes_between_exec(a, b), d.num_minutes() as i128, "{a:?} - {b:?}");
        }
    }
}

#[test]
fn differences_round_toward_zero() {
    let a = Timestamp { secs: 100, nanos: 0 };
    let b = Timestamp { secs: 10, nanos: 500_000_000 };
    assert_eq!(seconds_between_exec(a, b), 89);
    assert_eq!(seconds_between_exec(b, a), -89);
    assert_eq!(minutes_between_exec(Timestamp { secs: 0, nanos: 0 }, Timestamp { secs: 119, nanos: 0 }), -1);
    assert_eq!(minutes_between_exec(Timestamp { secs: 120, nanos: 0 }, Timestamp { secs: 0, nanos: 1 }), 1);
}
