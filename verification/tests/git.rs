use ccometixline::git::{parse_porcelain_v2, GitSegment, GitStatus};
use ccometixline::segment::Segment;
use ccometixline::config::SegmentId;

#[test]
fn clean_branch_with_upstream() {
    let info = parse_porcelain_v2(
        "# branch.oid 3c43efd0123456789\n# branch.head master\n# branch.upstream origin/master\n# branch.ab +2 -1\n",
    );
    assert_eq!(info.branch, "master");
    assert_eq!(info.status, GitStatus::Clean);
    assert_eq!((info.ahead, info.behind), (2, 1));
    assert_eq!(info.sha.as_deref(), Some("3c43efd"));
}

#[test]
fn file_names_do_not_fake_conflicts() {
    // Regression: a path containing "DD"/"UU"/"AA" used to read as a conflict.
    let info = parse_porcelain_v2("# branch.head main\n? DDL.sql\n? UUID.txt\n");
    assert_eq!(info.status, GitStatus::Dirty);
}

#[test]
fn unmerged_entry_is_conflict() {
    let info = parse_porcelain_v2(
        "# branch.head main\n1 .M N... 100644 100644 100644 a b x.rs\nu AU N... 100644 100644 100644 100644 a b c y.rs\n",
    );
    assert_eq!(info.status, GitStatus::Conflicts);
}

#[test]
fn detached_and_initial() {
    let info = parse_porcelain_v2("# branch.oid (initial)\n# branch.head (detached)\n");
    assert_eq!(info.branch, "detached");
    assert_eq!(info.sha, None);
}

#[test]
fn empty_output_is_clean_and_detached() {
    let info = parse_porcelain_v2("");
    assert_eq!(info.branch, "detached");
    assert_eq!(info.status, GitStatus::Clean);
    assert_eq!((info.ahead, info.behind), (0, 0));
    assert_eq!(info.sha, None);
}

#[test]
fn conflict_is_not_downgraded_by_later_changes() {
    let info = parse_porcelain_v2("u AU x\n1 .M y\n? z\n");
    assert_eq!(info.status, GitStatus::Conflicts);
}

#[test]
fn crlf_lines_and_missing_final_newline() {
    let info = parse_porcelain_v2("# branch.head dev\r\n# branch.ab +10 -0");
    assert_eq!(info.branch, "dev");
    assert_eq!((info.ahead, info.behind), (10, 0));
    assert_eq!(info.status, GitStatus::Clean);
}

#[test]
fn bad_counts_read_as_zero() {
    let info = parse_porcelain_v2("# branch.ab +x -99999999999\n");
    assert_eq!((info.ahead, info.behind), (0, 0));
    let info = parse_porcelain_v2("# branch.ab   +4294967295\t-+7\n");
    assert_eq!((info.ahead, info.behind), (4294967295, 7));
}

#[test]
fn short_sha_and_unicode_branch() {
    let info = parse_porcelain_v2("# branch.oid abc\n# branch.head f\u{e9}ature/\u{4e2d}\n");
    assert_eq!(info.sha.as_deref(), Some("abc"));
    assert_eq!(info.branch, "f\u{e9}ature/\u{4e2d}");
}

#[test]
fn header_without_value() {
    let info = parse_porcelain_v2("# branch.head\n#x\n");
    assert_eq!(info.branch, "");
    assert_eq!(info.status, GitStatus::Dirty);
}

#[test]
fn failed_command_gives_nothing() {
    let seg = GitSegment::new();
    assert!(seg.info_from_output(false, b"# branch.head main\n").is_none());
    assert!(seg.collect_from_output(false, b"").is_none());
}

#[test]
fn sha_hidden_unless_enabled() {
    let out: &[u8] = b"# branch.oid 0123456789abcdef\n# branch.head main\n";
    let hidden = GitSegment::new().info_from_output(true, out).unwrap();
    assert_eq!(hidden.sha, None);
    let shown = GitSegment::new().with_sha(true).info_from_output(true, out).unwrap();
    assert_eq!(shown.sha.as_deref(), Some("0123456"));
    let default = GitSegment::default().info_from_output(true, out).unwrap();
    assert_eq!(default.sha, None);
}

#[test]
fn invalid_utf8_is_replaced() {
    let out: &[u8] = b"# branch.head ma\xffin\n";
    let info = GitSegment::new().info_from_output(true, out).unwrap();
    assert_eq!(info.branch, "ma\u{fffd}in");
}

#[test]
fn segment_text_for_dirty_branch_ahead_and_behind() {
    let out: &[u8] = b"# branch.oid 3c43efd0123\n# branch.head master\n# branch.ab +2 -13\n1 .M x\n";
    let data = GitSegment::new().with_sha(true).collect_from_output(true, out).unwrap();
    assert_eq!(data.primary, "master");
    assert_eq!(data.secondary, "\u{25cf} \u{2191}2 \u{2193}13 3c43efd");
    let meta: Vec<(&str, &str)> =
        data.metadata.iter().map(|(k, v)| (k.as_str(), v.as_str())).collect();
    assert_eq!(
        meta,
        vec![
            ("branch", "master"),
            ("status", "Dirty"),
            ("ahead", "2"),
            ("behind", "13"),
            ("sha", "3c43efd")
        ]
    );
}

#[test]
fn segment_text_for_clean_level_branch() {
    let data = GitSegment::new().collect_from_output(true, b"# branch.head main\n").unwrap();
    assert_eq!(data.secondary, "\u{2713}");
    assert_eq!(data.metadata.len(), 4);
    let data = GitSegment::new().collect_from_output(true, b"u UU x\n").unwrap();
    assert_eq!(data.primary, "detached");
    assert_eq!(data.secondary, "\u{26a0}");
}

#[test]
fn git_segment_id() {
    assert_eq!(GitSegment::new().id(), SegmentId::Git);
}

#[test]
fn counts_come_from_the_last_signed_words() {
    let info = parse_porcelain_v2("# branch.ab +3 -4\n# branch.ab +0 -7\n");
    assert_eq!((info.ahead, info.behind), (0, 7));
    let info = parse_porcelain_v2("# branch.ab +5 -2\n# branch.ab +x -1\n");
    assert_eq!((info.ahead, info.behind), (0, 1));
    let info = parse_porcelain_v2("# branch.ab +5 -2\n# branch.ab x\n");
    assert_eq!((info.ahead, info.behind), (5, 2));
}
