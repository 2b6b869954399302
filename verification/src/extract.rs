//! Turning a document into a bounded stretch of plain text.
//!
//! The caller reads the file; the functions here take its bytes and decide
//! everything else: which format the extension names, how markup is stripped,
//! which lines survive, how an over-long text is cut, and what is reported when
//! nothing readable is left.

use vstd::prelude::*;
use crate::text::{
    chars_of, is_space, is_whitespace, join_of, push_all, push_joined, push_str, slice_of, split,
    split_of, string_of, texts, trim, trim_of, CharClass,
};

verus! {

/// The number of characters that an extracted text is cut down to.
pub const TEXT_BUDGET: usize = 2000;

/// The marker that stands for the middle of a text that was cut.
pub open spec fn elision() -> Seq<char> {
    "\n\n[...中间内容省略...]\n\n"@
}

/// How many characters of the budget go to the start of a text that is cut:
/// three quarters, rounded down.
pub open spec fn head_share(max: nat) -> nat {
    max * 3 / 4
}

/// `t` cut to the budget `max`: unchanged if it fits (or if the budget is
/// zero); otherwise its first `head_share(max)` characters, the marker, and
/// its last `max - head_share(max)` characters.
pub open spec fn truncated(t: Seq<char>, max: nat) -> Seq<char> {
    if t.len() <= max || max == 0 {
        t
    } else {
        t.take(head_share(max) as int) + elision() + t.skip(
            t.len() - (max - head_share(max)),
        )
    }
}

/// A text within the budget is left as it is, so cutting it again changes
/// nothing; in particular a text of exactly `max` characters comes back
/// unchanged.
pub proof fn lemma_truncate_within_budget(t: Seq<char>, max: nat)
    requires
        t.len() <= max,
    ensures
        truncated(t, max) == t,
        truncated(truncated(t, max), max) == truncated(t, max),
{
}

/// A text that is cut keeps its first `head_share(max)` characters and its last
/// `max - head_share(max)` characters, and grows by the marker only.
pub proof fn lemma_truncate_keeps_both_ends(t: Seq<char>, max: nat)
    requires
        t.len() > max > 0,
    ensures
        truncated(t, max).len() == max + elision().len(),
        truncated(t, max).take(head_share(max) as int) == t.take(head_share(max) as int),
        truncated(t, max).skip((head_share(max) + elision().len()) as int) == t.skip(
            t.len() - (max - head_share(max)),
        ),
{
    let h = head_share(max) as int;
    assert(0 <= h < max);
}

/// Cuts `text` to at most `max_chars` characters of its own, keeping its start
/// and its end.
pub fn smart_truncate(text: &str, max_chars: usize) -> (r: String)
    ensures
        r@ == truncated(text@, max_chars as nat),
{
    let chars = chars_of(text);
    let n = chars.len();
    if n <= max_chars || max_chars == 0 {
        return string_of(&chars);
    }
    let head = max_chars / 4 * 3 + (max_chars % 4) * 3 / 4;
    assert(head == head_share(max_chars as nat));
    let tail = max_chars - head;
    let mut out = slice_of(&chars, 0, head);
    push_str(&mut out, "\n\n[...中间内容省略...]\n\n");
    let end = slice_of(&chars, n - tail, n);
    push_all(&mut out, &end);
    assert(chars@.subrange(0, head as int) == text@.take(head as int));
    assert(chars@.subrange(n - tail, n as int) == text@.skip(n - tail));
    string_of(&out)
}

/// Where a scan of marked-up text stands: the text kept so far, whether the
/// scan is inside a tag, and whether the last character outside a tag was
/// white space.
pub struct Scan {
    pub out: Seq<char>,
    pub in_tag: bool,
    pub spaced: bool,
}

/// One character of marked-up text. A tag gives one blank, at its `<` if
/// `blank_at_open`, else at its `>`; what stands inside a tag is dropped;
/// outside, a run of white space gives one blank and anything else is kept.
pub open spec fn scan_step(st: Scan, ch: char, blank_at_open: bool) -> Scan {
    if ch == '<' {
        Scan { out: if blank_at_open { st.out.push(' ') } else { st.out }, in_tag: true, ..st }
    } else if ch == '>' {
        Scan { out: if blank_at_open { st.out } else { st.out.push(' ') }, in_tag: false, ..st }
    } else if st.in_tag {
        st
    } else if is_space(ch) {
        Scan { out: if st.spaced { st.out } else { st.out.push(' ') }, spaced: true, ..st }
    } else {
        Scan { out: st.out.push(ch), spaced: false, ..st }
    }
}

/// The scan of a whole text, from `Scan { out: empty, in_tag: false, spaced: false }`.
pub open spec fn scan_of(xml: Seq<char>, blank_at_open: bool) -> Scan
    decreases xml.len(),
{
    if xml.len() == 0 {
        Scan { out: Seq::empty(), in_tag: false, spaced: false }
    } else {
        scan_step(scan_of(xml.drop_last(), blank_at_open), xml.last(), blank_at_open)
    }
}

/// The text that a scan of `xml` keeps.
pub open spec fn unmarked(xml: Seq<char>, blank_at_open: bool) -> Seq<char> {
    scan_of(xml, blank_at_open).out
}

/// Strips the tags from `xml` and collapses white space.
pub fn strip_markup(xml: &Vec<char>, blank_at_open: bool) -> (r: Vec<char>)
    ensures
        r@ == unmarked(xml@, blank_at_open),
{
    let mut out: Vec<char> = Vec::new();
    let mut in_tag = false;
    let mut spaced = false;
    let mut i: usize = 0;
    while i < xml.len()
        invariant
            i <= xml.len(),
            scan_of(xml@.take(i as int), blank_at_open) == (Scan { out: out@, in_tag, spaced }),
        decreases xml.len() - i,
    {
        let ch = xml[i];
        assert(xml@.take(i + 1).drop_last() == xml@.take(i as int));
        if ch == '<' {
            in_tag = true;
            if blank_at_open {
                out.push(' ');
            }
        } else if ch == '>' {
            in_tag = false;
            if !blank_at_open {
                out.push(' ');
            }
        } else if !in_tag {
            if is_whitespace(ch) {
                if !spaced {
                    out.push(' ');
                }
                spaced = true;
            } else {
                out.push(ch);
                spaced = false;
            }
        }
        i += 1;
    }
    assert(xml@.take(xml.len() as int) == xml@);
    out
}

/// The text of one slide: its markup stripped, with a blank where each tag
/// ended, and trimmed.
pub open spec fn slide_text(xml: Seq<char>) -> Seq<char> {
    trim_of(unmarked(xml, false), CharClass::Space)
}

/// The text of the XML of one slide, without its tags.
pub fn strip_xml_tags(xml: &str) -> (r: String)
    ensures
        r@ == slide_text(xml@),
{
    let chars = chars_of(xml);
    let plain = strip_markup(&chars, false);
    let trimmed = trim(&plain, CharClass::Space);
    string_of(&trimmed)
}

/// The lines of `lines` that are not blank, each trimmed, in order.
pub open spec fn kept_lines(lines: Seq<Seq<char>>) -> Seq<Seq<char>>
    decreases lines.len(),
{
    if lines.len() == 0 {
        Seq::empty()
    } else {
        let rest = kept_lines(lines.drop_last());
        let line = trim_of(lines.last(), CharClass::Space);
        if line.len() > 0 {
            rest.push(line)
        } else {
            rest
        }
    }
}

/// `t` with every line trimmed and the blank lines dropped.
pub open spec fn cleaned(t: Seq<char>) -> Seq<char> {
    join_of(kept_lines(split_of(t, '\n')), "\n"@)
}

/// Trims every line of `text` and drops the blank ones.
pub fn clean_lines(text: &Vec<char>) -> (r: Vec<char>)
    ensures
        r@ == cleaned(text@),
{
    let lines = split(text, '\n');
    let mut out: Vec<char> = Vec::new();
    let mut first = true;
    let mut i: usize = 0;
    while i < lines.len()
        invariant
            i <= lines.len(),
            out@ == join_of(kept_lines(texts(lines@).take(i as int)), "\n"@),
            first == (kept_lines(texts(lines@).take(i as int)).len() == 0),
        decreases lines.len() - i,
    {
        let ghost before = texts(lines@).take(i as int);
        let ghost after = texts(lines@).take(i + 1);
        assert(after.drop_last() == before);
        assert(after.last() == lines@[i as int]@);
        let line = trim(&lines[i], CharClass::Space);
        if line.len() > 0 {
            assert(kept_lines(after) == kept_lines(before).push(line@));
            assert(kept_lines(after).drop_last() == kept_lines(before));
            push_joined(&mut out, first, "\n", &line);
            first = false;
        }
        i += 1;
    }
    assert(texts(lines@).take(lines.len() as int) == texts(lines@));
    out
}

/// Trims every line of `text` and drops the blank ones.
pub fn clean_text(text: &str) -> (r: String)
    ensures
        r@ == cleaned(text@),
{
    let chars = chars_of(text);
    let out = clean_lines(&chars);
    string_of(&out)
}

} // verus!
