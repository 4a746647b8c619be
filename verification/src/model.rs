//! The model segment: the model's display name, with the reasoning effort
//! after it.
use vstd::prelude::*;
use crate::config::SegmentId;
use crate::segment::{distinct_names, pair, pairs_view, Segment, SegmentData};
use crate::text::{push_str, string_from};

verus! {

/// The model segment.
pub struct ModelSegment;

/// The name shown for a model: the name the model configuration gives its
/// id when it knows it (that name already carries any context suffix);
/// otherwise the upstream display name, or the id when that is empty,
/// followed by the configured context suffix (such as `" 1M"`) if any.
pub open spec fn model_name(
    id: Seq<char>,
    display_name: Seq<char>,
    config_name: Option<Seq<char>>,
    config_suffix: Option<Seq<char>>,
) -> Seq<char> {
    match config_name {
        Some(n) => n,
        None => {
            let base = if display_name.len() == 0 {
                id
            } else {
                display_name
            };
            match config_suffix {
                Some(s) => base + s,
                None => base,
            }
        },
    }
}

/// Plain model of an optional string.
pub open spec fn opt_view(o: Option<String>) -> Option<Seq<char>> {
    match o {
        Some(s) => Some(s@),
        None => None,
    }
}

/// The effort level, dimmed (ANSI bright black), after a space.
pub open spec fn effort_suffix(level: Seq<char>) -> Seq<char> {
    " \x1b[90m"@ + level + "\x1b[0m"@
}

impl ModelSegment {
    /// The model segment.
    pub fn new() -> (r: Self) {
        Self
    }

    /// The name shown for model `id` with upstream display name
    /// `display_name`, given what the model configuration says of `id`: its
    /// display name (`config_name`) and its context suffix (`config_suffix`).
    pub fn format_model_name(
        &self,
        id: &str,
        display_name: &str,
        config_name: Option<String>,
        config_suffix: Option<String>,
    ) -> (r: String)
        ensures
            r@ == model_name(id@, display_name@, opt_view(config_name), opt_view(config_suffix)),
    {
        match config_name {
            Some(name) => name,
            None => {
                let mut base = if display_name.is_empty() {
                    string_from(id)
                } else {
                    string_from(display_name)
                };
                match config_suffix {
                    Some(suffix) => {
                        push_str(&mut base, suffix.as_str());
                        base
                    },
                    None => base,
                }
            },
        }
    }

    /// The segment's text: the shown name, then the effort level dimmed
    /// when there is one; the model id, the upstream display name and the
    /// effort level by name.
    pub fn collect_from(
        &self,
        id: &str,
        display_name: &str,
        effort: Option<&str>,
        config_name: Option<String>,
        config_suffix: Option<String>,
    ) -> (r: SegmentData)
        ensures
            r.primary@ == model_name(
                id@,
                display_name@,
                opt_view(config_name),
                opt_view(config_suffix),
            ) + match effort {
                Some(level) => effort_suffix(level@),
                None => Seq::<char>::empty(),
            },
            r.secondary@ == Seq::<char>::empty(),
            distinct_names(pairs_view(r.metadata@)),
            pairs_view(r.metadata@) == seq![("model_id"@, id@), ("display_name"@, display_name@)]
                + match effort {
                Some(level) => seq![("effort"@, level@)],
                None => Seq::<(Seq<char>, Seq<char>)>::empty(),
            },
    {
        let mut metadata: Vec<(String, String)> = Vec::new();
        metadata.push(pair("model_id", string_from(id)));
        metadata.push(pair("display_name", string_from(display_name)));
        let mut primary = self.format_model_name(id, display_name, config_name, config_suffix);
        match effort {
            Some(level) => {
                push_str(&mut primary, " \x1b[90m");
                push_str(&mut primary, level);
                push_str(&mut primary, "\x1b[0m");
                metadata.push(pair("effort", string_from(level)));
            },
            None => {},
        }
        proof {
            reveal_strlit("model_id");
            reveal_strlit("display_name");
            reveal_strlit("effort");
            assert("model_id"@[0] != "display_name"@[0]);
            assert("model_id"@[0] != "effort"@[0]);
            assert("display_name"@[0] != "effort"@[0]);
            assert(pairs_view(metadata@) =~= seq![("model_id"@, id@), ("display_name"@, display_name@)]
                + match effort {
                Some(level) => seq![("effort"@, level@)],
                None => Seq::<(Seq<char>, Seq<char>)>::empty(),
            });
        }
        SegmentData { primary, secondary: String::new(), metadata }
    }
}

impl Default for ModelSegment {
    fn default() -> (r: Self) {
        Self::new()
    }
}

impl Segment for ModelSegment {
    fn id(&self) -> (r: SegmentId)
        ensures
            r == SegmentId::Model,
    {
        SegmentId::Model
    }
}

/// A name the model configuration gives is shown as it is, whatever the
/// upstream display name, the id and the configured suffix; without one the
/// upstream display name (or the id when that is empty) shows, followed by
/// the suffix.
pub proof fn lemma_configured_name_wins(
    id: Seq<char>,
    display_name: Seq<char>,
    config_name: Option<Seq<char>>,
    config_suffix: Option<Seq<char>>,
)
    ensures
        config_name matches Some(n) ==> model_name(id, display_name, config_name, config_suffix)
            == n,
        config_name is None && display_name.len() > 0 ==> model_name(
            id,
            display_name,
            config_name,
            config_suffix,
        ) == display_name + match config_suffix {
            Some(s) => s,
            None => Seq::<char>::empty(),
        },
        config_name is None && display_name.len() == 0 ==> model_name(
            id,
            display_name,
            config_name,
            config_suffix,
        ) == id + match config_suffix {
            Some(s) => s,
            None => Seq::<char>::empty(),
        },
{
    if config_name is None && config_suffix is None {
        assert(id + Seq::<char>::empty() =~= id);
        assert(display_name + Seq::<char>::empty() =~= display_name);
    }
}

} // verus!
