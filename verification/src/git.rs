//! The git segment: reads `git status --porcelain=v2 --branch` output into
//! branch, upstream ahead/behind counts, HEAD sha and working-tree state,
//! and renders them.
use vstd::prelude::*;
use crate::config::SegmentId;
use crate::segment::{distinct_names, pair, pairs_view, Segment, SegmentData, SegmentDataModel};
use crate::text::{
    decode_lossy, utf8_lossy,
    decimal, decimal_string, join, join_strings, push_str, views, chars_equal, find_char, is_whitespace, is_whitespace_char, lemma_word_len, lines, parse_u32,
    parse_u32_chars, run_before, string_from, string_of, strip_cr, to_chars, words,
};

verus! {

/// State of the working tree.
#[derive(Debug, Clone, Copy, PartialEq, Eq, Structural)]
pub enum GitStatus {
    Clean,
    Dirty,
    Conflicts,
}

/// What the git segment knows of a repository.
#[derive(Debug)]
pub struct GitInfo {
    pub branch: String,
    pub status: GitStatus,
    pub ahead: u32,
    pub behind: u32,
    pub sha: Option<String>,
}

/// Plain model of `GitInfo`.
pub ghost struct GitInfoModel {
    pub branch: Seq<char>,
    pub status: GitStatus,
    pub ahead: u32,
    pub behind: u32,
    pub sha: Option<Seq<char>>,
}

impl View for GitInfo {
    type V = GitInfoModel;

    open spec fn view(&self) -> GitInfoModel {
        GitInfoModel {
            branch: self.branch@,
            status: self.status,
            ahead: self.ahead,
            behind: self.behind,
            sha: match self.sha {
                Some(s) => Some(s@),
                None => None,
            },
        }
    }
}

// ---------------------------------------------------------------------------
// The porcelain v2 format
// ---------------------------------------------------------------------------

/// What is known before any line is read: branch "detached", clean, level
/// with the upstream, no sha.
pub open spec fn initial_info() -> GitInfoModel {
    GitInfoModel {
        branch: "detached"@,
        status: GitStatus::Clean,
        ahead: 0,
        behind: 0,
        sha: None,
    }
}

/// Whether `line` is a header line (it begins with `"# "`).
pub open spec fn is_header(line: Seq<char>) -> bool {
    line.len() >= 2 && line[0] == '#' && line[1] == ' '
}

/// Whether `line` is an unmerged entry (it begins with `"u "`).
pub open spec fn is_unmerged(line: Seq<char>) -> bool {
    line.len() >= 2 && line[0] == 'u' && line[1] == ' '
}

/// The key of a header: its text up to the first space.
pub open spec fn header_key(header: Seq<char>) -> Seq<char> {
    header.take(run_before(header, ' ') as int)
}

/// The value of a header: its text after the first space, or nothing when
/// there is no space.
pub open spec fn header_value(header: Seq<char>) -> Seq<char> {
    let k = run_before(header, ' ');
    if k < header.len() {
        header.skip(k + 1 as int)
    } else {
        seq![]
    }
}

/// The first seven characters of `s` (all of it when shorter).
pub open spec fn short_sha(s: Seq<char>) -> Seq<char> {
    if s.len() < 7 {
        s
    } else {
        s.take(7)
    }
}

/// One word of a `branch.ab` header: `+N` sets the ahead count, `-N` the
/// behind count, each to 0 when `N` is not a `u32`.
pub open spec fn ab_part(info: GitInfoModel, part: Seq<char>) -> GitInfoModel {
    if part.len() > 0 && part[0] == '+' {
        GitInfoModel {
            ahead: match parse_u32(part.skip(1)) {
                Some(n) => n,
                None => 0,
            },
            ..info
        }
    } else if part.len() > 0 && part[0] == '-' {
        GitInfoModel {
            behind: match parse_u32(part.skip(1)) {
                Some(n) => n,
                None => 0,
            },
            ..info
        }
    } else {
        info
    }
}

/// The words of a `branch.ab` header applied in order.
pub open spec fn ab_parts(info: GitInfoModel, parts: Seq<Seq<char>>) -> GitInfoModel
    decreases parts.len(),
{
    if parts.len() == 0 {
        info
    } else {
        ab_parts(ab_part(info, parts[0]), parts.skip(1))
    }
}

/// What one line of output changes. Headers start with `"# "` and set the
/// sha (`branch.oid`, unless `(initial)`), the branch (`branch.head`,
/// unless `(detached)`) or the upstream counts (`branch.ab`); `u` entries
/// are unmerged (conflicts); any other non-empty entry makes a clean tree
/// dirty.
pub open spec fn line_step(info: GitInfoModel, line: Seq<char>) -> GitInfoModel {
    if is_header(line) {
        let header = line.skip(2);
        let key = header_key(header);
        let value = header_value(header);
        if key == "branch.oid"@ && value != "(initial)"@ {
            GitInfoModel { sha: Some(short_sha(value)), ..info }
        } else if key == "branch.head"@ && value != "(detached)"@ {
            GitInfoModel { branch: value, ..info }
        } else if key == "branch.ab"@ {
            ab_parts(info, words(value))
        } else {
            info
        }
    } else if is_unmerged(line) {
        GitInfoModel { status: GitStatus::Conflicts, ..info }
    } else if line.len() > 0 && info.status == GitStatus::Clean {
        GitInfoModel { status: GitStatus::Dirty, ..info }
    } else {
        info
    }
}

/// Lines applied in order.
pub open spec fn apply_lines(info: GitInfoModel, ls: Seq<Seq<char>>) -> GitInfoModel
    decreases ls.len(),
{
    if ls.len() == 0 {
        info
    } else {
        apply_lines(line_step(info, ls[0]), ls.skip(1))
    }
}

/// What `git status --porcelain=v2 --branch` output `text` says.
pub open spec fn porcelain_info(text: Seq<char>) -> GitInfoModel {
    apply_lines(initial_info(), lines(text))
}

fn apply_ab_word(info: &mut GitInfo, cs: &Vec<char>, lo: usize, hi: usize)
    requires
        lo < hi <= cs.len(),
    ensures
        final(info)@ == ab_part(old(info)@, cs@.subrange(lo as int, hi as int)),
{
    let ghost part = cs@.subrange(lo as int, hi as int);
    assert(part.skip(1) == cs@.subrange(lo + 1, hi as int));
    if cs[lo] == '+' {
        info.ahead = match parse_u32_chars(cs, lo + 1, hi) {
            Some(n) => n,
            None => 0,
        };
    } else if cs[lo] == '-' {
        info.behind = match parse_u32_chars(cs, lo + 1, hi) {
            Some(n) => n,
            None => 0,
        };
    }
}

fn apply_ab_value(info: &mut GitInfo, cs: &Vec<char>, lo: usize, hi: usize)
    requires
        lo <= hi <= cs.len(),
    ensures
        final(info)@ == ab_parts(old(info)@, words(cs@.subrange(lo as int, hi as int))),
{
    let mut pos: usize = lo;
    while pos < hi
        invariant
            lo <= pos <= hi <= cs.len(),
            ab_parts(old(info)@, words(cs@.subrange(lo as int, hi as int))) == ab_parts(
                info@,
                words(cs@.subrange(pos as int, hi as int)),
            ),
        decreases hi - pos,
    {
        let ghost rest = cs@.subrange(pos as int, hi as int);
        if is_whitespace_char(cs[pos]) {
            assert(rest.skip(1) == cs@.subrange(pos + 1, hi as int));
            pos += 1;
        } else {
            let mut end: usize = pos + 1;
            while end < hi && !is_whitespace_char(cs[end])
                invariant
                    pos < end <= hi <= cs.len(),
                    forall|k: int| pos <= k < end ==> !is_whitespace(cs@[k]),
                decreases hi - end,
            {
                end += 1;
            }
            proof {
                lemma_word_len(rest, end - pos);
                let w = rest.take(end - pos);
                assert(w == cs@.subrange(pos as int, end as int));
                assert(rest.skip(end - pos) == cs@.subrange(end as int, hi as int));
                let tail = words(cs@.subrange(end as int, hi as int));
                assert(words(rest) == seq![w] + tail);
                assert((seq![w] + tail).skip(1) =~= tail);
            }
            apply_ab_word(info, cs, pos, end);
            pos = end;
        }
    }
}

fn apply_line(info: &mut GitInfo, cs: &Vec<char>, lo: usize, hi: usize)
    requires
        lo <= hi <= cs.len(),
    ensures
        final(info)@ == line_step(old(info)@, cs@.subrange(lo as int, hi as int)),
{
    let ghost line = cs@.subrange(lo as int, hi as int);
    if hi - lo >= 2 && cs[lo] == '#' && cs[lo + 1] == ' ' {
        let hs = lo + 2;
        let ghost header = line.skip(2);
        assert(header == cs@.subrange(hs as int, hi as int));
        let sp = find_char(cs, hs, hi, ' ');
        let vlo = if sp < hi {
            sp + 1
        } else {
            hi
        };
        proof {
            assert(header_key(header) == cs@.subrange(hs as int, sp as int));
            if sp < hi {
                assert(header_value(header) == cs@.subrange(vlo as int, hi as int));
            } else {
                assert(header_value(header) =~= cs@.subrange(vlo as int, hi as int));
            }
        }
        let key_oid = to_chars("branch.oid");
        let key_head = to_chars("branch.head");
        let key_ab = to_chars("branch.ab");
        let initial = to_chars("(initial)");
        let detached = to_chars("(detached)");
        if chars_equal(cs, hs, sp, &key_oid) && !chars_equal(cs, vlo, hi, &initial) {
            let end = if hi - vlo < 7 {
                hi
            } else {
                vlo + 7
            };
            assert(short_sha(cs@.subrange(vlo as int, hi as int)) == cs@.subrange(
                vlo as int,
                end as int,
            ));
            info.sha = Some(string_of(cs, vlo, end));
        } else if chars_equal(cs, hs, sp, &key_head) && !chars_equal(cs, vlo, hi, &detached) {
            info.branch = string_of(cs, vlo, hi);
        } else if chars_equal(cs, hs, sp, &key_ab) {
            apply_ab_value(info, cs, vlo, hi);
        }
    } else if hi - lo >= 2 && cs[lo] == 'u' && cs[lo + 1] == ' ' {
        info.status = GitStatus::Conflicts;
    } else if hi > lo && info.status == GitStatus::Clean {
        info.status = GitStatus::Dirty;
    }
}

/// Parse `git status --porcelain=v2 --branch` output. Headers start with
/// `# `; `u` entries are unmerged (conflicts); any other entry means dirty.
pub fn parse_porcelain_v2(text: &str) -> (info: GitInfo)
    ensures
        info@ == porcelain_info(text@),
{
    let cs = to_chars(text);
    let n = cs.len();
    let mut info = GitInfo {
        branch: string_from("detached"),
        status: GitStatus::Clean,
        ahead: 0,
        behind: 0,
        sha: None,
    };
    assert(cs@.subrange(0, n as int) == text@);
    let mut pos: usize = 0;
    while pos < n
        invariant
            0 <= pos <= n == cs.len(),
            cs@ == text@,
            porcelain_info(text@) == apply_lines(info@, lines(cs@.subrange(pos as int, n as int))),
        decreases n - pos,
    {
        let ghost rest = cs@.subrange(pos as int, n as int);
        let j = find_char(&cs, pos, n, '\n');
        let end = if j < n && j > pos && cs[j - 1] == '\r' {
            j - 1
        } else {
            j
        };
        proof {
            let piece = rest.take(j - pos);
            assert(piece == cs@.subrange(pos as int, j as int));
            if j < n {
                assert(strip_cr(piece) == cs@.subrange(pos as int, end as int));
                assert(rest.skip(j - pos + 1) == cs@.subrange(j + 1, n as int));
                let tail = lines(cs@.subrange(j + 1, n as int));
                assert(lines(rest) == seq![strip_cr(piece)] + tail);
                assert((seq![strip_cr(piece)] + tail).skip(1) =~= tail);
            } else {
                assert(lines(rest) == seq![rest]);
                assert(seq![rest].skip(1) =~= Seq::<Seq<char>>::empty());
                assert(lines(cs@.subrange(n as int, n as int)) =~= Seq::<Seq<char>>::empty());
            }
        }
        apply_line(&mut info, &cs, pos, end);
        pos = if j < n {
            j + 1
        } else {
            j
        };
    }
    assert(lines(cs@.subrange(n as int, n as int)) =~= Seq::<Seq<char>>::empty());
    info
}

// ---------------------------------------------------------------------------
// Laws of the format
// ---------------------------------------------------------------------------

/// Whether some line of `ls` is an unmerged entry.
pub open spec fn has_unmerged(ls: Seq<Seq<char>>) -> bool {
    exists|i: int| 0 <= i < ls.len() && is_unmerged(#[trigger] ls[i])
}

/// Whether some line of `ls` is a non-empty entry (not a header).
pub open spec fn has_entry(ls: Seq<Seq<char>>) -> bool {
    exists|i: int| 0 <= i < ls.len() && (#[trigger] ls[i]).len() > 0 && !is_header(ls[i])
}

proof fn lemma_ab_parts_keep_status(info: GitInfoModel, parts: Seq<Seq<char>>)
    ensures
        ab_parts(info, parts).status == info.status,
        ab_parts(info, parts).branch == info.branch,
        ab_parts(info, parts).sha == info.sha,
    decreases parts.len(),
{
    if parts.len() > 0 {
        lemma_ab_parts_keep_status(ab_part(info, parts[0]), parts.skip(1));
    }
}

/// Whether `line` is a header `# key value` with a value other than
/// `excluded`.
pub open spec fn header_sets(line: Seq<char>, key: Seq<char>, excluded: Seq<char>) -> bool {
    is_header(line) && header_key(line.skip(2)) == key && header_value(line.skip(2)) != excluded
}

/// The value of the last header of `ls` that sets `key` to something other
/// than `excluded`.
pub open spec fn last_setting(ls: Seq<Seq<char>>, key: Seq<char>, excluded: Seq<char>) -> Option<
    Seq<char>,
>
    decreases ls.len(),
{
    if ls.len() == 0 {
        None
    } else if header_sets(ls.last(), key, excluded) {
        Some(header_value(ls.last().skip(2)))
    } else {
        last_setting(ls.drop_last(), key, excluded)
    }
}

proof fn lemma_last_setting_front(ls: Seq<Seq<char>>, key: Seq<char>, excluded: Seq<char>)
    requires
        ls.len() >= 1,
    ensures
        last_setting(ls, key, excluded) == match last_setting(ls.skip(1), key, excluded) {
            Some(v) => Some(v),
            None => last_setting(seq![ls[0]], key, excluded),
        },
    decreases ls.len(),
{
    let one = seq![ls[0]];
    assert(one.drop_last() =~= Seq::<Seq<char>>::empty());
    assert(one.last() == ls[0]);
    if ls.len() == 1 {
        assert(ls.skip(1) =~= Seq::<Seq<char>>::empty());
        assert(ls =~= one);
    } else {
        let init = ls.drop_last();
        lemma_last_setting_front(init, key, excluded);
        assert(init.skip(1) =~= ls.skip(1).drop_last());
        assert(ls.skip(1).last() == ls.last());
        assert(init[0] == ls[0]);
    }
}

proof fn lemma_header_keys_differ()
    ensures
        "branch.oid"@ != "branch.head"@,
        "branch.oid"@ != "branch.ab"@,
        "branch.head"@ != "branch.ab"@,
{
    reveal_strlit("branch.oid");
    reveal_strlit("branch.head");
    reveal_strlit("branch.ab");
    assert("branch.oid"@[7] != "branch.head"@[7]);
    assert("branch.oid"@[7] != "branch.ab"@[7]);
    assert("branch.head"@[7] != "branch.ab"@[7]);
}

proof fn lemma_apply_lines_headers(info: GitInfoModel, ls: Seq<Seq<char>>)
    ensures
        apply_lines(info, ls).branch == match last_setting(ls, "branch.head"@, "(detached)"@) {
            Some(v) => v,
            None => info.branch,
        },
        apply_lines(info, ls).sha == match last_setting(ls, "branch.oid"@, "(initial)"@) {
            Some(v) => Some(short_sha(v)),
            None => info.sha,
        },
    decreases ls.len(),
{
    if ls.len() > 0 {
        let l = ls[0];
        if is_header(l) {
            lemma_ab_parts_keep_status(info, words(header_value(l.skip(2))));
        }
        lemma_header_keys_differ();
        lemma_apply_lines_headers(line_step(info, l), ls.skip(1));
        lemma_last_setting_front(ls, "branch.head"@, "(detached)"@);
        lemma_last_setting_front(ls, "branch.oid"@, "(initial)"@);
        let one = seq![l];
        assert(one.drop_last() =~= Seq::<Seq<char>>::empty());
        assert(one.last() == l);
        assert(last_setting(one.drop_last(), "branch.head"@, "(detached)"@) is None);
        assert(last_setting(one.drop_last(), "branch.oid"@, "(initial)"@) is None);
    }
}

/// The branch is the value of the last `branch.head` header other than
/// `(detached)`, and `detached` when there is none; the sha is the first
/// seven characters of the last `branch.oid` other than `(initial)`, and
/// absent when there is none.
pub proof fn lemma_branch_and_sha_from_last_header(text: Seq<char>)
    ensures
        porcelain_info(text).branch == match last_setting(
            lines(text),
            "branch.head"@,
            "(detached)"@,
        ) {
            Some(v) => v,
            None => "detached"@,
        },
        porcelain_info(text).sha == match last_setting(lines(text), "branch.oid"@, "(initial)"@) {
            Some(v) => Some(short_sha(v)),
            None => None,
        },
{
    lemma_apply_lines_headers(initial_info(), lines(text));
}

/// Whether word `w` starts with `sign`.
pub open spec fn signed_word(w: Seq<char>, sign: char) -> bool {
    w.len() > 0 && w[0] == sign
}

/// The last word of `ws` that starts with `sign`.
pub open spec fn last_signed(ws: Seq<Seq<char>>, sign: char) -> Option<Seq<char>>
    decreases ws.len(),
{
    if ws.len() == 0 {
        None
    } else if signed_word(ws.last(), sign) {
        Some(ws.last())
    } else {
        last_signed(ws.drop_last(), sign)
    }
}

/// The count a signed word gives: the `u32` after its sign, 0 when the rest
/// is not one.
pub open spec fn count_of(w: Seq<char>) -> u32 {
    match parse_u32(w.skip(1)) {
        Some(n) => n,
        None => 0,
    }
}

/// Whether `line` is a `branch.ab` header.
pub open spec fn is_ab_header(line: Seq<char>) -> bool {
    is_header(line) && header_key(line.skip(2)) == "branch.ab"@
}

/// The words of every `branch.ab` header of `ls`, in order.
pub open spec fn ab_words(ls: Seq<Seq<char>>) -> Seq<Seq<char>>
    decreases ls.len(),
{
    if ls.len() == 0 {
        seq![]
    } else {
        (if is_ab_header(ls[0]) {
            words(header_value(ls[0].skip(2)))
        } else {
            seq![]
        }) + ab_words(ls.skip(1))
    }
}

proof fn lemma_last_signed_append(a: Seq<Seq<char>>, b: Seq<Seq<char>>, sign: char)
    ensures
        last_signed(a + b, sign) == match last_signed(b, sign) {
            Some(w) => Some(w),
            None => last_signed(a, sign),
        },
    decreases b.len(),
{
    if b.len() == 0 {
        assert(a + b =~= a);
    } else {
        lemma_last_signed_append(a, b.drop_last(), sign);
        assert((a + b).drop_last() =~= a + b.drop_last());
        assert((a + b).last() == b.last());
    }
}

proof fn lemma_ab_parts_counts(info: GitInfoModel, parts: Seq<Seq<char>>)
    ensures
        ab_parts(info, parts).ahead == match last_signed(parts, '+') {
            Some(w) => count_of(w),
            None => info.ahead,
        },
        ab_parts(info, parts).behind == match last_signed(parts, '-') {
            Some(w) => count_of(w),
            None => info.behind,
        },
    decreases parts.len(),
{
    if parts.len() > 0 {
        let one = seq![parts[0]];
        let rest = parts.skip(1);
        lemma_ab_parts_counts(ab_part(info, parts[0]), rest);
        assert(parts =~= one + rest);
        lemma_last_signed_append(one, rest, '+');
        lemma_last_signed_append(one, rest, '-');
        assert(one.drop_last() =~= Seq::<Seq<char>>::empty());
        assert(one.last() == parts[0]);
        assert(last_signed(one.drop_last(), '+') is None);
        assert(last_signed(one.drop_last(), '-') is None);
    }
}

proof fn lemma_apply_lines_counts(info: GitInfoModel, ls: Seq<Seq<char>>)
    ensures
        apply_lines(info, ls).ahead == match last_signed(ab_words(ls), '+') {
            Some(w) => count_of(w),
            None => info.ahead,
        },
        apply_lines(info, ls).behind == match last_signed(ab_words(ls), '-') {
            Some(w) => count_of(w),
            None => info.behind,
        },
    decreases ls.len(),
{
    if ls.len() > 0 {
        let l = ls[0];
        let w0 = if is_ab_header(l) {
            words(header_value(l.skip(2)))
        } else {
            seq![]
        };
        lemma_header_keys_differ();
        lemma_apply_lines_counts(line_step(info, l), ls.skip(1));
        lemma_last_signed_append(w0, ab_words(ls.skip(1)), '+');
        lemma_last_signed_append(w0, ab_words(ls.skip(1)), '-');
        if is_ab_header(l) {
            lemma_ab_parts_counts(info, w0);
        } else {
            assert(last_signed(w0, '+') is None);
            assert(last_signed(w0, '-') is None);
        }
    }
}

/// The ahead count is the number after the last `+` word of all
/// `branch.ab` headers (0 when it is not a `u32`, and 0 when there is no
/// such word); the behind count likewise for the last `-` word.
pub proof fn lemma_counts_from_last_signed_word(text: Seq<char>)
    ensures
        porcelain_info(text).ahead == match last_signed(ab_words(lines(text)), '+') {
            Some(w) => count_of(w),
            None => 0,
        },
        porcelain_info(text).behind == match last_signed(ab_words(lines(text)), '-') {
            Some(w) => count_of(w),
            None => 0,
        },
{
    lemma_apply_lines_counts(initial_info(), lines(text));
}

proof fn lemma_apply_lines_status(info: GitInfoModel, ls: Seq<Seq<char>>)
    ensures
        apply_lines(info, ls).status == (if info.status == GitStatus::Conflicts || has_unmerged(
            ls,
        ) {
            GitStatus::Conflicts
        } else if info.status == GitStatus::Dirty || has_entry(ls) {
            GitStatus::Dirty
        } else {
            GitStatus::Clean
        }),
    decreases ls.len(),
{
    if ls.len() > 0 {
        let l = ls[0];
        let next = line_step(info, l);
        let rest = ls.skip(1);
        if is_header(l) {
            lemma_ab_parts_keep_status(info, words(header_value(l.skip(2))));
        }
        lemma_apply_lines_status(next, rest);
        assert(has_unmerged(ls) == (is_unmerged(l) || has_unmerged(rest))) by {
            if has_unmerged(ls) {
                let i = choose|i: int| 0 <= i < ls.len() && is_unmerged(#[trigger] ls[i]);
                if i > 0 {
                    assert(rest[i - 1] == ls[i]);
                }
            }
            if has_unmerged(rest) {
                let i = choose|i: int| 0 <= i < rest.len() && is_unmerged(#[trigger] rest[i]);
                assert(ls[i + 1] == rest[i]);
            }
        }
        assert(has_entry(ls) == ((l.len() > 0 && !is_header(l)) || has_entry(rest))) by {
            if has_entry(ls) {
                let i = choose|i: int|
                    0 <= i < ls.len() && (#[trigger] ls[i]).len() > 0 && !is_header(ls[i]);
                if i > 0 {
                    assert(rest[i - 1] == ls[i]);
                }
            }
            if has_entry(rest) {
                let i = choose|i: int|
                    0 <= i < rest.len() && (#[trigger] rest[i]).len() > 0 && !is_header(rest[i]);
                assert(ls[i + 1] == rest[i]);
            }
        }
    }
}

/// The working-tree state is the worst entry of the output, whatever the
/// order of the lines: conflicts exactly when some line is an unmerged
/// (`u `) entry; dirty exactly when there is none but some non-empty line
/// is not a header (so a file name such as `DDL.sql` or `UUID.txt` never
/// reads as a conflict); clean otherwise.
pub proof fn lemma_status_is_worst_entry(text: Seq<char>)
    ensures
        porcelain_info(text).status == GitStatus::Conflicts <==> has_unmerged(lines(text)),
        porcelain_info(text).status == GitStatus::Dirty <==> !has_unmerged(lines(text))
            && has_entry(lines(text)),
        porcelain_info(text).status == GitStatus::Clean <==> !has_unmerged(lines(text))
            && !has_entry(lines(text)),
{
    lemma_apply_lines_status(initial_info(), lines(text));
}

/// An entry line (any line that is not a header) changes nothing but the
/// working-tree state: branch, upstream counts and sha come from headers
/// alone.
pub proof fn lemma_entries_only_change_status(info: GitInfoModel, line: Seq<char>)
    requires
        !is_header(line),
    ensures
        line_step(info, line) == (GitInfoModel { status: line_step(info, line).status, ..info }),
{
}

/// A count the segment prints (`↑n`, `↓n`) reads back as the same count
/// in a `branch.ab` header: `+n` sets the ahead count to `n`, `-n` the
/// behind count.
pub proof fn lemma_counts_round_trip(info: GitInfoModel, n: u32)
    ensures
        ab_part(info, seq!['+'] + decimal(n as nat)).ahead == n,
        ab_part(info, seq!['-'] + decimal(n as nat)).behind == n,
{
    crate::text::lemma_parse_decimal(n as nat);
    assert((seq!['+'] + decimal(n as nat)).skip(1) == decimal(n as nat));
    assert((seq!['-'] + decimal(n as nat)).skip(1) == decimal(n as nat));
}

// ---------------------------------------------------------------------------
// Reading the output of a `git status` run
// ---------------------------------------------------------------------------


/// The git segment: whether it shows the HEAD sha is its one setting.
pub struct GitSegment {
    show_sha: bool,
}

impl GitSegment {
    /// Whether the segment shows the HEAD sha.
    pub closed spec fn shows_sha(&self) -> bool {
        self.show_sha
    }

    /// A segment that does not show the sha.
    pub fn new() -> (r: Self)
        ensures
            !r.shows_sha(),
    {
        Self { show_sha: false }
    }

    /// The same segment, showing the sha or not as `show_sha` says.
    pub fn with_sha(self, show_sha: bool) -> (r: Self)
        ensures
            r.shows_sha() == show_sha,
    {
        let mut s = self;
        s.show_sha = show_sha;
        s
    }

    /// `info` as this segment keeps it: without the sha unless it shows it.
    pub open spec fn kept(&self, info: GitInfoModel) -> GitInfoModel {
        if self.shows_sha() {
            info
        } else {
            GitInfoModel { sha: None, ..info }
        }
    }

    /// What the segment knows after `git --no-optional-locks status
    /// --porcelain=v2 --branch` ran in the working directory: nothing when
    /// the command failed (outside a repository), else the parsed output
    /// (decoded as UTF-8, invalid sequences replaced), the sha dropped
    /// unless the segment shows it.
    pub fn info_from_output(&self, succeeded: bool, stdout: &[u8]) -> (r: Option<GitInfo>)
        ensures
            !succeeded ==> r is None,
            succeeded ==> (r matches Some(info) && info@ == self.kept(
                porcelain_info(utf8_lossy(stdout@)),
            )),
    {
        if !succeeded {
            return None;
        }
        let text = decode_lossy(stdout);
        let mut info = parse_porcelain_v2(text.as_str());
        if !self.show_sha {
            info.sha = None;
        }
        Some(info)
    }

    /// The segment's text for `info`: the branch as the primary part; the
    /// tree state, `↑n` and `↓n` when ahead or behind, and the sha when
    /// known, joined by spaces, as the secondary part; and the values by
    /// name.
    pub fn segment_data(info: GitInfo) -> (r: SegmentData)
        ensures
            r@ == git_segment_data(info@),
            distinct_names(r@.metadata),
    {
        proof {
            lemma_git_metadata_names_distinct(info@);
        }
        let status_name = match info.status {
            GitStatus::Clean => string_from("Clean"),
            GitStatus::Dirty => string_from("Dirty"),
            GitStatus::Conflicts => string_from("Conflicts"),
        };
        let mut metadata: Vec<(String, String)> = Vec::new();
        metadata.push(pair("branch", info.branch.clone()));
        metadata.push(pair("status", status_name));
        metadata.push(pair("ahead", decimal_string(info.ahead as u64)));
        metadata.push(pair("behind", decimal_string(info.behind as u64)));
        let mut parts: Vec<String> = Vec::new();
        match info.status {
            GitStatus::Clean => parts.push(string_from("\u{2713}")),
            GitStatus::Dirty => parts.push(string_from("\u{25cf}")),
            GitStatus::Conflicts => parts.push(string_from("\u{26a0}")),
        }
        if info.ahead > 0 {
            let mut s = string_from("\u{2191}");
            let d = decimal_string(info.ahead as u64);
            push_str(&mut s, d.as_str());
            parts.push(s);
        }
        if info.behind > 0 {
            let mut s = string_from("\u{2193}");
            let d = decimal_string(info.behind as u64);
            push_str(&mut s, d.as_str());
            parts.push(s);
        }
        match &info.sha {
            Some(sha) => {
                metadata.push(pair("sha", sha.clone()));
                parts.push(sha.clone());
            },
            None => {},
        }
        let secondary = join_strings(&parts, " ");
        proof {
            assert(views(parts@) =~= status_parts(info@));
            assert(pairs_view(metadata@) =~= git_metadata(info@));
        }
        SegmentData { primary: info.branch, secondary, metadata }
    }

    /// The segment's text after `git status` ran: nothing when it failed,
    /// else the text for what its output says.
    pub fn collect_from_output(&self, succeeded: bool, stdout: &[u8]) -> (r: Option<SegmentData>)
        ensures
            !succeeded ==> r is None,
            succeeded ==> (r matches Some(d) && d@ == git_segment_data(
                self.kept(porcelain_info(utf8_lossy(stdout@))),
            )),
            r matches Some(d) ==> distinct_names(d@.metadata),
    {
        match self.info_from_output(succeeded, stdout) {
            Some(info) => Some(Self::segment_data(info)),
            None => None,
        }
    }
}

impl Default for GitSegment {
    fn default() -> (r: Self)
        ensures
            !r.shows_sha(),
    {
        Self::new()
    }
}

impl Segment for GitSegment {
    fn id(&self) -> (r: SegmentId)
        ensures
            r == SegmentId::Git,
    {
        SegmentId::Git
    }
}

/// The symbol for a tree state: ✓ clean, ● changed, ⚠ conflicts.
pub open spec fn status_symbol(status: GitStatus) -> Seq<char> {
    match status {
        GitStatus::Clean => "\u{2713}"@,
        GitStatus::Dirty => "\u{25cf}"@,
        GitStatus::Conflicts => "\u{26a0}"@,
    }
}

/// The name of a tree state, as `{:?}` prints it.
pub open spec fn status_name(status: GitStatus) -> Seq<char> {
    match status {
        GitStatus::Clean => "Clean"@,
        GitStatus::Dirty => "Dirty"@,
        GitStatus::Conflicts => "Conflicts"@,
    }
}

/// The pieces of the secondary text: the state symbol, `↑n` when ahead,
/// `↓n` when behind, and the sha when known.
pub open spec fn status_parts(info: GitInfoModel) -> Seq<Seq<char>> {
    seq![status_symbol(info.status)] + (if info.ahead > 0 {
        seq!["\u{2191}"@ + decimal(info.ahead as nat)]
    } else {
        seq![]
    }) + (if info.behind > 0 {
        seq!["\u{2193}"@ + decimal(info.behind as nat)]
    } else {
        seq![]
    }) + (match info.sha {
        Some(s) => seq![s],
        None => seq![],
    })
}

/// The named values: branch, status, ahead, behind, and sha when known.
pub open spec fn git_metadata(info: GitInfoModel) -> Seq<(Seq<char>, Seq<char>)> {
    seq![
        ("branch"@, info.branch),
        ("status"@, status_name(info.status)),
        ("ahead"@, decimal(info.ahead as nat)),
        ("behind"@, decimal(info.behind as nat)),
    ] + (match info.sha {
        Some(s) => seq![("sha"@, s)],
        None => seq![],
    })
}

/// The git segment's text for `info`.
pub open spec fn git_segment_data(info: GitInfoModel) -> SegmentDataModel {
    SegmentDataModel {
        primary: info.branch,
        secondary: join(status_parts(info), " "@),
        metadata: git_metadata(info),
    }
}

/// The named values of the git segment never repeat a name.
pub proof fn lemma_git_metadata_names_distinct(info: GitInfoModel)
    ensures
        distinct_names(git_metadata(info)),
{
    reveal_strlit("branch");
    reveal_strlit("status");
    reveal_strlit("ahead");
    reveal_strlit("behind");
    reveal_strlit("sha");
    let m = git_metadata(info);
    assert(m[0].0 == "branch"@ && m[1].0 == "status"@ && m[2].0 == "ahead"@ && m[3].0
        == "behind"@);
    assert("branch"@[0] != "status"@[0]);
    assert("branch"@[0] != "ahead"@[0]);
    assert("branch"@[1] != "behind"@[1]);
    assert("status"@[0] != "ahead"@[0]);
    assert("status"@[0] != "behind"@[0]);
    assert("ahead"@[0] != "behind"@[0]);
    assert("branch"@[0] != "sha"@[0]);
    assert("status"@[1] != "sha"@[1]);
    assert("ahead"@[0] != "sha"@[0]);
    assert("behind"@[0] != "sha"@[0]);
    if info.sha is Some {
        assert(m[4].0 == "sha"@);
    }
}

/// The pieces of the secondary text without the sha: the state symbol,
/// then `↑n` exactly when ahead (`n` the ahead count) and `↓n` exactly when
/// behind (`n` the behind count), each independent of the other; the sha,
/// when known, comes last.
pub proof fn lemma_status_arrows(info: GitInfoModel)
    ensures
        status_parts(info) == status_parts(GitInfoModel { sha: None, ..info }) + match info.sha {
            Some(s) => seq![s],
            None => Seq::<Seq<char>>::empty(),
        },
        status_parts(GitInfoModel { sha: None, ..info })[0] == status_symbol(info.status),
        status_parts(GitInfoModel { sha: None, ..info }).contains(
            "\u{2191}"@ + decimal(info.ahead as nat),
        ) <==> info.ahead > 0,
        status_parts(GitInfoModel { sha: None, ..info }).contains(
            "\u{2193}"@ + decimal(info.behind as nat),
        ) <==> info.behind > 0,
        info.ahead > 0 ==> status_parts(GitInfoModel { sha: None, ..info })[1] == "\u{2191}"@
            + decimal(info.ahead as nat),
        info.behind > 0 ==> status_parts(GitInfoModel { sha: None, ..info }).last() == "\u{2193}"@
            + decimal(info.behind as nat),
{
    reveal_strlit("\u{2191}");
    reveal_strlit("\u{2193}");
    reveal_strlit("\u{2713}");
    reveal_strlit("\u{25cf}");
    reveal_strlit("\u{26a0}");
    let bare = GitInfoModel { sha: None, ..info };
    let p = status_parts(bare);
    let up = "\u{2191}"@ + decimal(info.ahead as nat);
    let down = "\u{2193}"@ + decimal(info.behind as nat);
    assert(up[0] == '\u{2191}' && down[0] == '\u{2193}');
    let sym = status_symbol(info.status);
    assert(sym[0] != '\u{2191}' && sym[0] != '\u{2193}');
    if info.ahead > 0 && info.behind > 0 {
        assert(p =~= seq![sym, up, down]);
        assert(p[1] == up && p[2] == down);
    } else if info.ahead > 0 {
        assert(p =~= seq![sym, up]);
        assert(p[1] == up);
        assert forall|i: int| 0 <= i < p.len() implies p[i] != down by {
            assert(p[i][0] != down[0]);
        }
    } else if info.behind > 0 {
        assert(p =~= seq![sym, down]);
        assert(p[1] == down);
        assert forall|i: int| 0 <= i < p.len() implies p[i] != up by {
            assert(p[i][0] != up[0]);
        }
    } else {
        assert(p =~= seq![sym]);
        assert(p[0] != up && p[0] != down) by {
            assert(p[0][0] != up[0] && p[0][0] != down[0]);
        }
    }
    assert(status_parts(info) =~= p + match info.sha {
        Some(s) => seq![s],
        None => Seq::<Seq<char>>::empty(),
    });
}

} // verus!
