//! The configuration vocabulary the segments and themes share: which segment
//! a value belongs to, colours, icons, text styles and per-segment options.
use vstd::prelude::*;

verus! {

/// Identifies a status-line segment.
#[derive(Debug, Clone, Copy, PartialEq, Eq, Structural)]
pub enum SegmentId {
    Model,
    Directory,
    Git,
    ContextWindow,
    Usage,
    Cost,
    Session,
    OutputStyle,
    Time,
    Update,
}

/// A terminal colour: one of the 16 basic colours, one of the 256-colour
/// palette, or a 24-bit colour.
#[derive(Debug, Clone, Copy, PartialEq, Eq, Structural)]
pub enum AnsiColor {
    Color16 { c16: u8 },
    Color256 { c256: u8 },
    Rgb { r: u8, g: u8, b: u8 },
}

/// The icon of a segment, for plain terminals and for Nerd Font terminals.
#[derive(Debug, Clone)]
pub struct IconConfig {
    pub plain: String,
    pub nerd_font: String,
}

/// Colours of a segment's icon, text and background; `None` keeps the
/// terminal default.
#[derive(Debug, Clone, Copy)]
pub struct ColorConfig {
    pub icon: Option<AnsiColor>,
    pub text: Option<AnsiColor>,
    pub background: Option<AnsiColor>,
}

/// Text styling of a segment.
#[derive(Debug, Clone, Copy)]
pub struct TextStyleConfig {
    pub text_bold: bool,
}

impl Default for TextStyleConfig {
    fn default() -> (r: Self)
        ensures
            !r.text_bold,
    {
        TextStyleConfig { text_bold: false }
    }
}

/// The value of a segment option: what the logic reads of a configuration
/// value (a flag, a text, a non-negative whole number), or anything else.
#[derive(Debug, Clone)]
pub enum OptionValue {
    Bool(bool),
    Text(String),
    Number(u64),
    Other,
}

/// Plain model of an option value.
pub ghost enum OptionValueModel {
    Bool(bool),
    Text(Seq<char>),
    Number(u64),
    Other,
}

impl View for OptionValue {
    type V = OptionValueModel;

    open spec fn view(&self) -> OptionValueModel {
        match self {
            OptionValue::Bool(b) => OptionValueModel::Bool(*b),
            OptionValue::Text(s) => OptionValueModel::Text(s@),
            OptionValue::Number(n) => OptionValueModel::Number(*n),
            OptionValue::Other => OptionValueModel::Other,
        }
    }
}

/// Plain model of a list of named options, in order.
pub open spec fn options_view(v: Seq<(String, OptionValue)>) -> Seq<(Seq<char>, OptionValueModel)> {
    v.map_values(|p: (String, OptionValue)| (p.0@, p.1@))
}

/// The configuration of one segment.
#[derive(Debug, Clone)]
pub struct SegmentConfig {
    pub id: SegmentId,
    pub enabled: bool,
    pub icon: IconConfig,
    pub colors: ColorConfig,
    pub styles: TextStyleConfig,
    pub options: Vec<(String, OptionValue)>,
}

/// The value of the option named `key` in `options` (the last one of that
/// name), if there is one.
pub open spec fn option_lookup(options: Seq<(Seq<char>, OptionValueModel)>, key: Seq<char>) -> Option<
    OptionValueModel,
>
    decreases options.len(),
{
    if options.len() == 0 {
        None
    } else if options.last().0 == key {
        Some(options.last().1)
    } else {
        option_lookup(options.drop_last(), key)
    }
}

/// Whether no two options in `options` have the same name, as in a map
/// from names to values.
pub open spec fn distinct_option_names(options: Seq<(Seq<char>, OptionValueModel)>) -> bool {
    forall|i: int, j: int|
        #![trigger options[i], options[j]]
        0 <= i < j < options.len() ==> options[i].0 != options[j].0
}

/// Where option names are distinct, looking up an option's name gives that
/// option's value: the list reads as the map from names to values it
/// stands for.
pub proof fn lemma_lookup_distinct(options: Seq<(Seq<char>, OptionValueModel)>, i: int)
    requires
        distinct_option_names(options),
        0 <= i < options.len(),
    ensures
        option_lookup(options, options[i].0) == Some(options[i].1),
    decreases options.len(),
{
    if i < options.len() - 1 {
        let rest = options.drop_last();
        assert(options[i] == rest[i]);
        assert(options[i].0 != options[options.len() - 1].0);
        assert forall|a: int, b: int| 0 <= a < b < rest.len() implies rest[a].0 != rest[b].0 by {
            assert(rest[a] == options[a] && rest[b] == options[b]);
        }
        lemma_lookup_distinct(rest, i);
    }
}

/// Looks up the option named `key` (the last one of that name).
pub fn find_option<'a>(options: &'a Vec<(String, OptionValue)>, key: &str) -> (r: Option<
    &'a OptionValue,
>)
    ensures
        match r {
            Some(v) => option_lookup(options_view(options@), key@) == Some(v@),
            None => option_lookup(options_view(options@), key@) is None,
        },
{
    let key_chars = crate::text::to_chars(key);
    let mut i: usize = options.len();
    assert(options_view(options@).take(i as int) == options_view(options@));
    while i > 0
        invariant
            i <= options.len(),
            key_chars@ == key@,
            option_lookup(options_view(options@), key@) == option_lookup(
                options_view(options@).take(i as int),
                key@,
            ),
        decreases i,
    {
        let name = crate::text::to_chars(options[i - 1].0.as_str());
        let ghost pre = options_view(options@).take(i as int);
        assert(pre.drop_last() == options_view(options@).take(i - 1));
        if crate::text::chars_equal(&name, 0, name.len(), &key_chars) {
            assert(name@.subrange(0, name@.len() as int) == name@);
            return Some(&options[i - 1].1);
        }
        assert(name@.subrange(0, name@.len() as int) == name@);
        i -= 1;
    }
    None
}

} // verus!
