//! What every segment produces, and the small renderings that several
//! segments share (weekday names, the pie gauge).
use vstd::prelude::*;
use crate::config::SegmentId;

verus! {

/// A segment of the status line.
pub trait Segment {
    /// Which segment this is.
    fn id(&self) -> SegmentId;
}

/// The text a segment contributes: its main part, a secondary part, and
/// named values that other parts of the line may use.
#[derive(Debug, Clone)]
pub struct SegmentData {
    pub primary: String,
    pub secondary: String,
    /// Named values, in the order they were set; no name occurs twice.
    pub metadata: Vec<(String, String)>,
}

/// Plain model of `SegmentData`.
pub ghost struct SegmentDataModel {
    pub primary: Seq<char>,
    pub secondary: Seq<char>,
    pub metadata: Seq<(Seq<char>, Seq<char>)>,
}

/// Plain model of a list of named values.
pub open spec fn pairs_view(v: Seq<(String, String)>) -> Seq<(Seq<char>, Seq<char>)> {
    v.map_values(|p: (String, String)| (p.0@, p.1@))
}

impl View for SegmentData {
    type V = SegmentDataModel;

    open spec fn view(&self) -> SegmentDataModel {
        SegmentDataModel {
            primary: self.primary@,
            secondary: self.secondary@,
            metadata: pairs_view(self.metadata@),
        }
    }
}

/// Whether no name occurs twice among named values.
pub open spec fn distinct_names(m: Seq<(Seq<char>, Seq<char>)>) -> bool {
    forall|i: int, j: int| 0 <= i < j < m.len() ==> m[i].0 != m[j].0
}

/// A pair of strings made from two literals.
pub fn pair(name: &str, value: String) -> (r: (String, String))
    ensures
        r.0@ == name@,
        r.1@ == value@,
{
    (crate::text::string_from(name), value)
}

/// A day of the week.
#[derive(Debug, Clone, Copy, PartialEq, Eq, Structural)]
pub enum Weekday {
    Mon,
    Tue,
    Wed,
    Thu,
    Fri,
    Sat,
    Sun,
}

/// The Chinese name of a weekday (周一 through 周日).
pub open spec fn weekday_name(w: Weekday) -> Seq<char> {
    match w {
        Weekday::Mon => seq!['\u{5468}', '\u{4e00}'],
        Weekday::Tue => seq!['\u{5468}', '\u{4e8c}'],
        Weekday::Wed => seq!['\u{5468}', '\u{4e09}'],
        Weekday::Thu => seq!['\u{5468}', '\u{56db}'],
        Weekday::Fri => seq!['\u{5468}', '\u{4e94}'],
        Weekday::Sat => seq!['\u{5468}', '\u{516d}'],
        Weekday::Sun => seq!['\u{5468}', '\u{65e5}'],
    }
}

/// Chinese weekday name, e.g. 周一 / 周日.
pub fn weekday_zh(weekday: Weekday) -> (r: &'static str)
    ensures
        r@ == weekday_name(weekday),
{
    match weekday {
        Weekday::Mon => {
            let r = "\u{5468}\u{4e00}";
            proof {
                reveal_strlit("\u{5468}\u{4e00}");
            }
            r
        },
        Weekday::Tue => {
            let r = "\u{5468}\u{4e8c}";
            proof {
                reveal_strlit("\u{5468}\u{4e8c}");
            }
            r
        },
        Weekday::Wed => {
            let r = "\u{5468}\u{4e09}";
            proof {
                reveal_strlit("\u{5468}\u{4e09}");
            }
            r
        },
        Weekday::Thu => {
            let r = "\u{5468}\u{56db}";
            proof {
                reveal_strlit("\u{5468}\u{56db}");
            }
            r
        },
        Weekday::Fri => {
            let r = "\u{5468}\u{4e94}";
            proof {
                reveal_strlit("\u{5468}\u{4e94}");
            }
            r
        },
        Weekday::Sat => {
            let r = "\u{5468}\u{516d}";
            proof {
                reveal_strlit("\u{5468}\u{516d}");
            }
            r
        },
        Weekday::Sun => {
            let r = "\u{5468}\u{65e5}";
            proof {
                reveal_strlit("\u{5468}\u{65e5}");
            }
            r
        },
    }
}

/// Which of the eight pie slices (1 through 8) stands for a utilization
/// level of `level` percent.
pub open spec fn gauge_slices(level: u8) -> nat {
    if level <= 12 {
        1
    } else if level <= 25 {
        2
    } else if level <= 37 {
        3
    } else if level <= 50 {
        4
    } else if level <= 62 {
        5
    } else if level <= 75 {
        6
    } else if level <= 87 {
        7
    } else {
        8
    }
}

/// The Nerd Font `circle_slice_N` glyph for `n` slices (U+F0A9E onwards).
pub open spec fn slice_glyph(n: nat) -> Seq<char> {
    seq![(0xf0a9d + n) as char]
}

/// Nerd Font circle_slice glyph for a utilization level: an 8-step pie
/// gauge in a single fixed-width character. `level` is the percentage
/// clamped to 0..=100 and cut to a whole number. Coarse by design: the exact
/// value is always rendered as a number next to it.
pub fn circle_gauge(level: u8) -> (r: &'static str)
    ensures
        r@ == slice_glyph(gauge_slices(level)),
{
    if level <= 12 {
        let r = "\u{f0a9e}";
        proof {
            reveal_strlit("\u{f0a9e}");
        }
        r
    } else if level <= 25 {
        let r = "\u{f0a9f}";
        proof {
            reveal_strlit("\u{f0a9f}");
        }
        r
    } else if level <= 37 {
        let r = "\u{f0aa0}";
        proof {
            reveal_strlit("\u{f0aa0}");
        }
        r
    } else if level <= 50 {
        let r = "\u{f0aa1}";
        proof {
            reveal_strlit("\u{f0aa1}");
        }
        r
    } else if level <= 62 {
        let r = "\u{f0aa2}";
        proof {
            reveal_strlit("\u{f0aa2}");
        }
        r
    } else if level <= 75 {
        let r = "\u{f0aa3}";
        proof {
            reveal_strlit("\u{f0aa3}");
        }
        r
    } else if level <= 87 {
        let r = "\u{f0aa4}";
        proof {
            reveal_strlit("\u{f0aa4}");
        }
        r
    } else {
        let r = "\u{f0aa5}";
        proof {
            reveal_strlit("\u{f0aa5}");
        }
        r
    }
}

/// The gauge never shows fewer slices for a higher level.
pub proof fn lemma_gauge_monotone(a: u8, b: u8)
    requires
        a <= b,
    ensures
        gauge_slices(a) <= gauge_slices(b),
        1 <= gauge_slices(a) <= 8,
{
}

} // verus!
