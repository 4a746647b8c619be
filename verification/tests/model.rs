use ccometixline::config::SegmentId;
use ccometixline::model::ModelSegment;
use ccometixline::segment::Segment;

#[test]
fn configured_name_wins() {
    let m = ModelSegment::new();
    let name = m.format_model_name("opus-4[1m]", "Opus", Some("Opus 4 1M".to_string()), Some(" 1M".to_string()));
    assert_eq!(name, "Opus 4 1M");
}

#[test]
fn fallback_to_display_name_with_suffix() {
    let m = ModelSegment::new();
    assert_eq!(m.format_model_name("glm-4.5[1m]", "GLM", None, Some(" 1M".to_string())), "GLM 1M");
    assert_eq!(m.format_model_name("kimi", "Kimi K2", None, None), "Kimi K2");
}

#[test]
fn fallback_to_id_when_display_name_empty() {
    let m = ModelSegment::new();
    assert_eq!(m.format_model_name("some-model", "", None, None), "some-model");
    assert_eq!(m.format_model_name("some-model", "", None, Some(" 1M".to_string())), "some-model 1M");
}

#[test]
fn effort_follows_the_name_dimmed() {
    let m = ModelSegment::default();
    let d = m.collect_from("model-x", "Sonnet 4", Some("high"), None, None);
    assert_eq!(d.primary, "Sonnet 4 \x1b[90mhigh\x1b[0m");
    assert_eq!(d.secondary, "");
    let meta: Vec<(&str, &str)> = d.metadata.iter().map(|(k, v)| (k.as_str(), v.as_str())).collect();
    assert_eq!(meta, vec![("model_id", "model-x"), ("display_name", "Sonnet 4"), ("effort", "high")]);
}

#[test]
fn no_effort() {
    let d = ModelSegment::new().collect_from("id", "Name", None, None, None);
    assert_eq!(d.primary, "Name");
    assert_eq!(d.metadata.len(), 2);
    assert_eq!(ModelSegment::new().id(), SegmentId::Model);
}
