use ccometixline::config::{find_option, AnsiColor, OptionValue, SegmentId};
use ccometixline::theme_default::{
    context_window_segment, cost_segment, directory_segment, git_segment, model_segment,
    output_style_segment, session_segment, time_segment, usage_segment,
};

#[test]
fn labels_are_muted_and_texts_have_their_tone() {
    let all = [
        (model_segment(), SegmentId::Model, "model", 110),
        (directory_segment(), SegmentId::Directory, "dir", 252),
        (git_segment(), SegmentId::Git, "git", 109),
        (context_window_segment(), SegmentId::ContextWindow, "ctx", 252),
        (usage_segment(), SegmentId::Usage, "", 252),
        (cost_segment(), SegmentId::Cost, "cost", 180),
        (time_segment(), SegmentId::Time, "", 250),
    ];
    for (c, id, icon, text) in all {
        assert_eq!(c.id, id);
        assert!(c.enabled);
        assert_eq!(c.icon.plain, icon);
        assert_eq!(c.icon.nerd_font, icon);
        assert_eq!(c.colors.icon, Some(AnsiColor::Color256 { c256: 245 }));
        assert_eq!(c.colors.text, Some(AnsiColor::Color256 { c256: text }));
        assert_eq!(c.colors.background, None);
        assert!(!c.styles.text_bold);
    }
}

#[test]
fn session_and_output_style_are_off() {
    let s = session_segment();
    assert_eq!(s.id, SegmentId::Session);
    assert!(!s.enabled);
    assert_eq!(s.icon.plain, "⏱️");
    assert_eq!(s.icon.nerd_font, "\u{f19bb}");
    assert_eq!(s.colors.icon, Some(AnsiColor::Color16 { c16: 2 }));
    let o = output_style_segment();
    assert_eq!(o.id, SegmentId::OutputStyle);
    assert!(!o.enabled);
    assert_eq!(o.icon.plain, "🎯");
    assert_eq!(o.icon.nerd_font, "\u{f12f5}");
    assert_eq!(o.colors.text, Some(AnsiColor::Color16 { c16: 6 }));
    assert!(o.options.is_empty());
}

#[test]
fn options_of_the_default_segments() {
    let g = git_segment();
    assert_eq!(g.options.len(), 1);
    assert_eq!(g.options[0].0, "show_sha");
    assert!(matches!(g.options[0].1, OptionValue::Bool(false)));
    let u = usage_segment();
    let names: Vec<&str> = u.options.iter().map(|(k, _)| k.as_str()).collect();
    assert_eq!(names, vec!["api_base_url", "cache_duration", "timeout", "line"]);
    assert!(matches!(&u.options[0].1, OptionValue::Text(s) if s == "https://api.anthropic.com"));
    assert!(matches!(u.options[1].1, OptionValue::Number(180)));
    assert!(matches!(u.options[2].1, OptionValue::Number(2)));
    assert!(matches!(u.options[3].1, OptionValue::Number(1)));
    let t = time_segment();
    assert!(matches!(t.options[0].1, OptionValue::Number(1)));
    assert!(model_segment().options.is_empty());
}

#[test]
fn option_names_are_distinct_and_each_is_found() {
    for c in [git_segment(), usage_segment(), time_segment(), model_segment()] {
        for (i, (name, value)) in c.options.iter().enumerate() {
            assert!(c.options.iter().skip(i + 1).all(|(other, _)| other != name));
            let found = find_option(&c.options, name).unwrap();
            assert_eq!(format!("{found:?}"), format!("{value:?}"));
        }
    }
    assert!(matches!(find_option(&usage_segment().options, "timeout"), Some(OptionValue::Number(2))));
    assert!(find_option(&usage_segment().options, "missing").is_none());
}
