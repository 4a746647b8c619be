//! The default theme: one configuration per segment. Labels are muted
//! (dim gray, 256-colour 245); each segment's text has its own tone.
use vstd::prelude::*;
use crate::config::{
    distinct_option_names, options_view, AnsiColor, ColorConfig, IconConfig, OptionValue, OptionValueModel, SegmentConfig,
    SegmentId, TextStyleConfig,
};
use crate::text::string_from;

verus! {

/// Whether `r` is the configuration with these parts: the given id, enabled
/// flag, icons, icon and text colours, the terminal's background, plain
/// text, and these options in this order, no two of one name.
pub open spec fn config_is(
    r: SegmentConfig,
    id: SegmentId,
    enabled: bool,
    plain: Seq<char>,
    nerd_font: Seq<char>,
    icon: AnsiColor,
    text: AnsiColor,
    options: Seq<(Seq<char>, OptionValueModel)>,
) -> bool {
    &&& r.id == id
    &&& r.enabled == enabled
    &&& r.icon.plain@ == plain
    &&& r.icon.nerd_font@ == nerd_font
    &&& r.colors.icon == Some(icon)
    &&& r.colors.text == Some(text)
    &&& r.colors.background is None
    &&& !r.styles.text_bold
    &&& options_view(r.options@) == options
    &&& distinct_option_names(options)
}

fn make_config(
    id: SegmentId,
    enabled: bool,
    plain: &str,
    nerd_font: &str,
    icon: AnsiColor,
    text: AnsiColor,
    options: Vec<(String, OptionValue)>,
) -> (r: SegmentConfig)
    requires
        distinct_option_names(options_view(options@)),
    ensures
        config_is(r, id, enabled, plain@, nerd_font@, icon, text, options_view(options@)),
{
    SegmentConfig {
        id,
        enabled,
        icon: IconConfig { plain: string_from(plain), nerd_font: string_from(nerd_font) },
        colors: ColorConfig { icon: Some(icon), text: Some(text), background: None },
        styles: TextStyleConfig::default(),
        options,
    }
}

/// The 256-colour palette entry `c`.
pub open spec fn c256(c: u8) -> AnsiColor {
    AnsiColor::Color256 { c256: c }
}

/// The basic colour `c`.
pub open spec fn c16(c: u8) -> AnsiColor {
    AnsiColor::Color16 { c16: c }
}

/// The model segment: label "model", soft steel blue text.
pub fn model_segment() -> (r: SegmentConfig)
    ensures
        config_is(r, SegmentId::Model, true, "model"@, "model"@, c256(245), c256(110), seq![]),
{
    let r = make_config(
        SegmentId::Model,
        true,
        "model",
        "model",
        AnsiColor::Color256 { c256: 245 },
        AnsiColor::Color256 { c256: 110 },
        Vec::new(),
    );
    assert(options_view(Seq::<(String, OptionValue)>::empty()) =~= seq![]);
    r
}

/// The directory segment: label "dir", neutral light text.
pub fn directory_segment() -> (r: SegmentConfig)
    ensures
        config_is(r, SegmentId::Directory, true, "dir"@, "dir"@, c256(245), c256(252), seq![]),
{
    let r = make_config(
        SegmentId::Directory,
        true,
        "dir",
        "dir",
        AnsiColor::Color256 { c256: 245 },
        AnsiColor::Color256 { c256: 252 },
        Vec::new(),
    );
    assert(options_view(Seq::<(String, OptionValue)>::empty()) =~= seq![]);
    r
}

/// The git segment: label "git", soft teal text, the sha hidden.
pub fn git_segment() -> (r: SegmentConfig)
    ensures
        config_is(
            r,
            SegmentId::Git,
            true,
            "git"@,
            "git"@,
            c256(245),
            c256(109),
            seq![("show_sha"@, OptionValueModel::Bool(false))],
        ),
{
    let mut opts: Vec<(String, OptionValue)> = Vec::new();
    opts.push((string_from("show_sha"), OptionValue::Bool(false)));
    let r = make_config(
        SegmentId::Git,
        true,
        "git",
        "git",
        AnsiColor::Color256 { c256: 245 },
        AnsiColor::Color256 { c256: 109 },
        opts,
    );
    assert(options_view(r.options@) =~= seq![("show_sha"@, OptionValueModel::Bool(false))]);
    r
}

/// The context window segment: label "ctx", neutral light text (the
/// threshold colour overrides it).
pub fn context_window_segment() -> (r: SegmentConfig)
    ensures
        config_is(
            r,
            SegmentId::ContextWindow,
            true,
            "ctx"@,
            "ctx"@,
            c256(245),
            c256(252),
            seq![],
        ),
{
    let r = make_config(
        SegmentId::ContextWindow,
        true,
        "ctx",
        "ctx",
        AnsiColor::Color256 { c256: 245 },
        AnsiColor::Color256 { c256: 252 },
        Vec::new(),
    );
    assert(options_view(Seq::<(String, OptionValue)>::empty()) =~= seq![]);
    r
}

/// The options of the usage segment: the API base URL, the cache duration
/// (180 s), the request timeout (2 s) and the line it goes on (1).
pub open spec fn usage_options() -> Seq<(Seq<char>, OptionValueModel)> {
    seq![
        ("api_base_url"@, OptionValueModel::Text("https://api.anthropic.com"@)),
        ("cache_duration"@, OptionValueModel::Number(180)),
        ("timeout"@, OptionValueModel::Number(2)),
        ("line"@, OptionValueModel::Number(1)),
    ]
}

/// The usage segment: no icon (the segment embeds its own per-window
/// colours and labels), neutral light text.
pub fn usage_segment() -> (r: SegmentConfig)
    ensures
        config_is(r, SegmentId::Usage, true, ""@, ""@, c256(245), c256(252), usage_options()),
{
    let mut opts: Vec<(String, OptionValue)> = Vec::new();
    opts.push(
        (string_from("api_base_url"), OptionValue::Text(string_from("https://api.anthropic.com"))),
    );
    opts.push((string_from("cache_duration"), OptionValue::Number(180)));
    opts.push((string_from("timeout"), OptionValue::Number(2)));
    opts.push((string_from("line"), OptionValue::Number(1)));
    assert(options_view(opts@) =~= usage_options());
    proof {
        reveal_strlit("api_base_url");
        reveal_strlit("cache_duration");
        reveal_strlit("timeout");
        reveal_strlit("line");
        let o = usage_options();
        assert forall|i: int, j: int| 0 <= i < j < o.len() implies o[i].0 != o[j].0 by {
            assert(o[i].0.len() != o[j].0.len());
        }
    }
    let r = make_config(
        SegmentId::Usage,
        true,
        "",
        "",
        AnsiColor::Color256 { c256: 245 },
        AnsiColor::Color256 { c256: 252 },
        opts,
    );
    r
}

/// The cost segment: label "cost", soft tan text.
pub fn cost_segment() -> (r: SegmentConfig)
    ensures
        config_is(r, SegmentId::Cost, true, "cost"@, "cost"@, c256(245), c256(180), seq![]),
{
    let r = make_config(
        SegmentId::Cost,
        true,
        "cost",
        "cost",
        AnsiColor::Color256 { c256: 245 },
        AnsiColor::Color256 { c256: 180 },
        Vec::new(),
    );
    assert(options_view(Seq::<(String, OptionValue)>::empty()) =~= seq![]);
    r
}

/// The time segment: no icon (the time stands alone on the second row),
/// ambient light gray text, on line 1.
pub fn time_segment() -> (r: SegmentConfig)
    ensures
        config_is(
            r,
            SegmentId::Time,
            true,
            ""@,
            ""@,
            c256(245),
            c256(250),
            seq![("line"@, OptionValueModel::Number(1))],
        ),
{
    let mut opts: Vec<(String, OptionValue)> = Vec::new();
    opts.push((string_from("line"), OptionValue::Number(1)));
    let r = make_config(
        SegmentId::Time,
        true,
        "",
        "",
        AnsiColor::Color256 { c256: 245 },
        AnsiColor::Color256 { c256: 250 },
        opts,
    );
    assert(options_view(r.options@) =~= seq![("line"@, OptionValueModel::Number(1))]);
    r
}

/// The session segment: off by default, a stopwatch icon, green.
pub fn session_segment() -> (r: SegmentConfig)
    ensures
        config_is(
            r,
            SegmentId::Session,
            false,
            "\u{23f1}\u{fe0f}"@,
            "\u{f19bb}"@,
            c16(2),
            c16(2),
            seq![],
        ),
{
    let r = make_config(
        SegmentId::Session,
        false,
        "\u{23f1}\u{fe0f}",
        "\u{f19bb}",
        AnsiColor::Color16 { c16: 2 },
        AnsiColor::Color16 { c16: 2 },
        Vec::new(),
    );
    assert(options_view(Seq::<(String, OptionValue)>::empty()) =~= seq![]);
    r
}

/// The output style segment: off by default, a target icon, cyan.
pub fn output_style_segment() -> (r: SegmentConfig)
    ensures
        config_is(
            r,
            SegmentId::OutputStyle,
            false,
            "\u{1f3af}"@,
            "\u{f12f5}"@,
            c16(6),
            c16(6),
            seq![],
        ),
{
    let r = make_config(
        SegmentId::OutputStyle,
        false,
        "\u{1f3af}",
        "\u{f12f5}",
        AnsiColor::Color16 { c16: 6 },
        AnsiColor::Color16 { c16: 6 },
        Vec::new(),
    );
    assert(options_view(Seq::<(String, OptionValue)>::empty()) =~= seq![]);
    r
}

} // verus!
