//! The text of word-processing documents and presentations.
//!
//! Both are archives of XML parts; the archive is read by the `zip` crate
//! and the markup is stripped here.

use vstd::prelude::*;
use crate::error::{ExtractError, ExtractFault};
use crate::extract::{clean_lines, cleaned, slide_text, strip_markup, unmarked};
use crate::text::{
    chars_of, decimal, ends_with, join_of, push_all, push_decimal, push_joined, push_str, slice_of,
    starts_with, string_of, strings, trim, CharClass,
};

verus! {

/// Why an archive gave no text.
#[derive(Clone, Copy, Debug, PartialEq, Eq, Structural)]
pub enum ArchiveFault {
    /// The bytes are no archive that the reader accepts.
    NotAnArchive,
    /// The archive has no entry to open under that name, or the reader refuses it.
    NoSuchEntry,
    /// The entry was opened; reading it as text failed.
    BadEntry,
}

/// A fault of the archive reader, with the reader's own words.
#[derive(Debug, PartialEq, Eq)]
pub struct ArchiveError {
    pub fault: ArchiveFault,
    pub detail: String,
}

/// The view of what reading an entry gave.
pub open spec fn entry_view(r: Result<String, ArchiveError>) -> Result<
    Seq<char>,
    (ArchiveFault, Seq<char>),
> {
    match r {
        Ok(s) => Ok(s@),
        Err(e) => Err((e.fault, e.detail@)),
    }
}

/// The view of what listing an archive gave.
pub open spec fn names_view(r: Result<Vec<String>, ArchiveError>) -> Result<
    Seq<Seq<char>>,
    (ArchiveFault, Seq<char>),
> {
    match r {
        Ok(v) => Ok(strings(v@)),
        Err(e) => Err((e.fault, e.detail@)),
    }
}

/// What the `zip` crate makes of the entry `name` of the archive `bytes`: its
/// content as text, or the fault and the reader's words.
pub uninterp spec fn archive_entry(bytes: Seq<u8>, name: Seq<char>) -> Result<
    Seq<char>,
    (ArchiveFault, Seq<char>),
>;

/// What the `zip` crate lists as the names of the entries of the archive
/// `bytes`, in the reader's order, or the fault and the reader's words.
pub uninterp spec fn archive_names(bytes: Seq<u8>) -> Result<
    Seq<Seq<char>>,
    (ArchiveFault, Seq<char>),
>;

/// `ZipArchive::new` on the bytes, `by_name`, and `read_to_string` on the
/// entry. Each of the three reports failure as an error, which comes back
/// under its own fault. The outcome depends on the bytes and the name alone.
#[verifier::external_body]
pub(crate) fn read_entry(bytes: &[u8], name: &str) -> (r: Result<String, ArchiveError>)
    ensures
        entry_view(r) == archive_entry(bytes@, name@),
{
    let mut archive = zip::ZipArchive::new(std::io::Cursor::new(bytes)).map_err(
        |e| ArchiveError { fault: ArchiveFault::NotAnArchive, detail: e.to_string() },
    )?;
    let mut entry = archive.by_name(name).map_err(
        |e| ArchiveError { fault: ArchiveFault::NoSuchEntry, detail: e.to_string() },
    )?;
    let mut text = String::new();
    match std::io::Read::read_to_string(&mut entry, &mut text) {
        Ok(_) => Ok(text),
        Err(e) => Err(ArchiveError { fault: ArchiveFault::BadEntry, detail: e.to_string() }),
    }
}

/// `ZipArchive::new` on the bytes and `file_names`. A name that the reader
/// cannot decode comes back as `BadEntry`. The outcome depends on the bytes
/// alone.
#[verifier::external_body]
pub(crate) fn read_names(bytes: &[u8]) -> (r: Result<Vec<String>, ArchiveError>)
    ensures
        names_view(r) == archive_names(bytes@),
{
    let archive = zip::ZipArchive::new(std::io::Cursor::new(bytes)).map_err(
        |e| ArchiveError { fault: ArchiveFault::NotAnArchive, detail: e.to_string() },
    )?;
    archive.file_names().map(
        |n| match n {
            Ok(name) => Ok(name.into_owned()),
            Err(e) => Err(ArchiveError { fault: ArchiveFault::BadEntry, detail: e.to_string() }),
        },
    ).collect()
}

/// The text of a word-processing document, given what reading its main part
/// gave: the part's markup stripped, with a blank where each tag began, and
/// its lines cleaned.
pub open spec fn docx_text_from(part: Result<Seq<char>, (ArchiveFault, Seq<char>)>) -> Result<
    Seq<char>,
    (ExtractFault, Seq<char>),
> {
    match part {
        Ok(xml) => Ok(cleaned(unmarked(xml, true))),
        Err((ArchiveFault::NotAnArchive, d)) => Err((ExtractFault::NotADocx, d)),
        Err((ArchiveFault::NoSuchEntry, d)) => Err((ExtractFault::MissingDocument, Seq::empty())),
        Err((ArchiveFault::BadEntry, d)) => Err((ExtractFault::Unreadable, d)),
    }
}

/// The view of an extraction's outcome.
pub open spec fn outcome(r: Result<String, ExtractError>) -> Result<
    Seq<char>,
    (ExtractFault, Seq<char>),
> {
    match r {
        Ok(s) => Ok(s@),
        Err(e) => Err(e@),
    }
}

/// The text of a word-processing document, from what reading its main part gave.
pub fn docx_text_of_part(part: Result<String, ArchiveError>) -> (r: Result<String, ExtractError>)
    ensures
        outcome(r) == docx_text_from(entry_view(part)),
{
    match part {
        Ok(xml) => {
            let chars = chars_of(xml.as_str());
            let plain = strip_markup(&chars, true);
            let lines = clean_lines(&plain);
            Ok(string_of(&lines))
        },
        Err(e) => match e.fault {
            ArchiveFault::NotAnArchive => Err(ExtractError::with(ExtractFault::NotADocx, e.detail)),
            ArchiveFault::NoSuchEntry => Err(ExtractError::bare(ExtractFault::MissingDocument)),
            ArchiveFault::BadEntry => Err(ExtractError::with(ExtractFault::Unreadable, e.detail)),
        },
    }
}

/// The text of the word-processing document `bytes`: that of its part
/// `word/document.xml`.
pub fn extract_docx(bytes: &[u8]) -> (r: Result<String, ExtractError>)
    ensures
        outcome(r) == docx_text_from(archive_entry(bytes@, "word/document.xml"@)),
{
    docx_text_of_part(read_entry(bytes, "word/document.xml"))
}

/// The value of a decimal digit.
pub open spec fn digit_value(c: char) -> Option<nat> {
    if '0' <= c <= '9' {
        Some((c as u8 - 48) as nat)
    } else {
        None
    }
}

/// The number that a run of decimal digits writes; nothing for an empty run or
/// one that holds anything but digits.
pub open spec fn digits_value(d: Seq<char>) -> Option<nat>
    decreases d.len(),
{
    if d.len() == 0 {
        None
    } else if d.len() == 1 {
        digit_value(d[0])
    } else {
        match (digits_value(d.drop_last()), digit_value(d.last())) {
            (Some(v), Some(x)) => Some(v * 10 + x),
            _ => None,
        }
    }
}

/// The index that `s` writes: decimal digits, after `+` or after nothing, for
/// a number that fits a `usize`.
pub open spec fn parsed_index(s: Seq<char>) -> Option<nat> {
    let d = if s.len() > 0 && s[0] == '+' {
        s.skip(1)
    } else {
        s
    };
    match digits_value(d) {
        Some(v) => if v <= usize::MAX {
            Some(v)
        } else {
            None
        },
        None => None,
    }
}

/// A run of digits writes at least what any of its starts writes.
proof fn lemma_digits_grow(d: Seq<char>, i: int)
    requires
        1 <= i <= d.len(),
        digits_value(d) is Some,
    ensures
        digits_value(d.take(i)) is Some,
        digits_value(d.take(i))->0 <= digits_value(d)->0,
    decreases d.len(),
{
    if i == d.len() {
        assert(d.take(i) == d);
    } else {
        assert(d.len() >= 2);
        lemma_digits_grow(d.drop_last(), i);
        assert(d.drop_last().take(i) == d.take(i));
    }
}

/// A run with a start that is no number is no number.
proof fn lemma_digits_fail(d: Seq<char>, i: int)
    requires
        1 <= i <= d.len(),
        digits_value(d.take(i)) is None,
    ensures
        digits_value(d) is None,
    decreases d.len(),
{
    if i == d.len() {
        assert(d.take(i) == d);
    } else {
        assert(d.len() >= 2);
        assert(d.drop_last().take(i) == d.take(i));
        lemma_digits_fail(d.drop_last(), i);
    }
}

/// Reads `s` as an index.
pub fn parse_index(s: &Vec<char>) -> (r: Option<usize>)
    ensures
        match r {
            Some(n) => parsed_index(s@) == Some(n as nat),
            None => parsed_index(s@) is None,
        },
{
    let start: usize = if s.len() > 0 && s[0] == '+' {
        1
    } else {
        0
    };
    let ghost d = s@.skip(start as int);
    assert(s@.skip(0) == s@);
    if start == s.len() {
        return None;
    }
    let mut acc: usize = 0;
    let mut i: usize = start;
    while i < s.len()
        invariant
            start <= i <= s.len(),
            start < s.len(),
            d == s@.skip(start as int),
            d == if s@.len() > 0 && s@[0] == '+' {
                s@.skip(1)
            } else {
                s@
            },
            i > start ==> digits_value(d.take(i - start)) == Some(acc as nat),
            i == start ==> acc == 0,
        decreases s.len() - i,
    {
        let c = s[i];
        let ghost upto = d.take(i - start + 1);
        assert(upto.drop_last() == d.take(i - start));
        assert(upto.last() == c);
        if !('0' <= c && c <= '9') {
            proof {
                lemma_digits_fail(d, i - start + 1);
            }
            return None;
        }
        let x: usize = (c as u8 - 48) as usize;
        if acc > (usize::MAX - x) / 10 {
            proof {
                assert(digits_value(upto) == Some((acc * 10 + x) as nat));
                if digits_value(d) is Some {
                    lemma_digits_grow(d, i - start + 1);
                }
            }
            return None;
        }
        acc = acc * 10 + x;
        i += 1;
    }
    assert(d.take(s.len() - start) == d);
    Some(acc)
}

/// The number in the name of a slide's part, `ppt/slides/slide<number>.xml`;
/// nothing for any other name.
pub open spec fn slide_number_of(name: Seq<char>) -> Option<nat> {
    let head = "ppt/slides/slide"@;
    let tail = ".xml"@;
    if head.is_prefix_of(name) && tail.is_suffix_of(name.skip(head.len() as int)) {
        parsed_index(name.subrange(head.len() as int, name.len() - tail.len()))
    } else {
        None
    }
}

/// The number of the slide that the entry `name` holds, if it holds one.
pub fn slide_number(name: &str) -> (r: Option<usize>)
    ensures
        match r {
            Some(n) => slide_number_of(name@) == Some(n as nat),
            None => slide_number_of(name@) is None,
        },
{
    let chars = chars_of(name);
    let head = chars_of("ppt/slides/slide");
    let tail = chars_of(".xml");
    if !starts_with(&chars, &head) {
        return None;
    }
    let rest = slice_of(&chars, head.len(), chars.len());
    assert(rest@ == name@.skip(head.len() as int));
    if !ends_with(&rest, &tail) {
        return None;
    }
    let digits = slice_of(&rest, 0, rest.len() - tail.len());
    assert(digits@ == name@.subrange(head.len() as int, name@.len() - tail.len()));
    parse_index(&digits)
}

/// A slide that holds text: its number and its text.
pub struct Slide {
    pub number: usize,
    pub text: Vec<char>,
}

impl View for Slide {
    type V = (nat, Seq<char>);

    open spec fn view(&self) -> (nat, Seq<char>) {
        (self.number as nat, self.text@)
    }
}

/// The views of a sequence of slides.
pub open spec fn slides_view(s: Seq<Slide>) -> Seq<(nat, Seq<char>)> {
    s.map_values(|x: Slide| x@)
}

/// How many slides at the start of `s` have a number of at most `number`.
pub open spec fn run_upto(s: Seq<(nat, Seq<char>)>, number: nat) -> nat
    decreases s.len(),
{
    if s.len() > 0 && s[0].0 <= number {
        1 + run_upto(s.drop_first(), number)
    } else {
        0
    }
}

/// `s` with `slide` put in after the starting run of slides whose number is
/// not greater.
pub open spec fn placed(s: Seq<(nat, Seq<char>)>, slide: (nat, Seq<char>)) -> Seq<
    (nat, Seq<char>),
> {
    s.insert(run_upto(s, slide.0) as int, slide)
}

/// The slides in the order of their numbers; slides of one number stay in the
/// order in which they came.
pub open spec fn ordered(s: Seq<(nat, Seq<char>)>) -> Seq<(nat, Seq<char>)>
    decreases s.len(),
{
    if s.len() == 0 {
        Seq::empty()
    } else {
        placed(ordered(s.drop_last()), s.last())
    }
}

/// Whether the numbers of `s` never fall.
pub open spec fn rising(s: Seq<(nat, Seq<char>)>) -> bool {
    forall|i: int, j: int| 0 <= i <= j < s.len() ==> s[i].0 <= s[j].0
}

/// The starting run is within the sequence; in a rising sequence every slide
/// after it has a greater number.
proof fn lemma_run_upto(s: Seq<(nat, Seq<char>)>, number: nat)
    ensures
        run_upto(s, number) <= s.len(),
        forall|i: int| 0 <= i < run_upto(s, number) ==> (#[trigger] s[i]).0 <= number,
        rising(s) ==> forall|i: int|
            run_upto(s, number) <= i < s.len() ==> (#[trigger] s[i]).0 > number,
    decreases s.len(),
{
    if s.len() > 0 && s[0].0 <= number {
        let t = s.drop_first();
        lemma_run_upto(t, number);
        assert forall|i: int| 0 <= i < run_upto(s, number) implies (#[trigger] s[i]).0
            <= number by {
            if i > 0 {
                assert(s[i] == t[i - 1]);
            }
        }
        if rising(s) {
            assert forall|i: int, j: int| 0 <= i <= j < t.len() implies t[i].0 <= t[j].0 by {
                assert(t[i] == s[i + 1] && t[j] == s[j + 1]);
            }
            assert forall|i: int| run_upto(s, number) <= i < s.len() implies (#[trigger] s[i]).0
                > number by {
                assert(s[i] == t[i - 1]);
            }
        }
    } else if rising(s) {
        assert forall|i: int| 0 <= i < s.len() implies (#[trigger] s[i]).0 > number by {
            assert(s[0].0 <= s[i].0);
        }
    }
}

/// Ordering gives a rising sequence that holds exactly the slides that went in.
pub proof fn lemma_ordered(s: Seq<(nat, Seq<char>)>)
    ensures
        rising(ordered(s)),
        ordered(s).len() == s.len(),
        ordered(s).to_multiset() == s.to_multiset(),
    decreases s.len(),
{
    if s.len() == 0 {
        assert(s == Seq::<(nat, Seq<char>)>::empty());
    } else {
        let before = ordered(s.drop_last());
        let x = s.last();
        let p = run_upto(before, x.0) as int;
        let after = placed(before, x);
        lemma_ordered(s.drop_last());
        lemma_run_upto(before, x.0);
        assert forall|i: int, j: int| 0 <= i <= j < after.len() implies after[i].0
            <= after[j].0 by {
            let a = if i < p { before[i] } else if i == p { x } else { before[i - 1] };
            let b = if j < p { before[j] } else if j == p { x } else { before[j - 1] };
            assert(after[i] == a && after[j] == b);
        }
        assert(after[p] == x);
        assert(after.remove(p) == before);
        vstd::seq_lib::to_multiset_remove(after, p);
        after.to_multiset_ensures();
        assert(after.to_multiset() == before.to_multiset().insert(x));
        assert(s == s.drop_last().push(x));
        vstd::seq_lib::to_multiset_build(s.drop_last(), x);
    }
}

/// Puts `slide` into `sorted`, after the slides whose number is not greater.
pub fn place_slide(sorted: &mut Vec<Slide>, slide: Slide)
    ensures
        slides_view(final(sorted)@) == placed(slides_view(old(sorted)@), slide@),
{
    let ghost before = slides_view(sorted@);
    let mut p: usize = 0;
    assert(before.skip(0) == before);
    while p < sorted.len() && sorted[p].number <= slide.number
        invariant
            p <= sorted.len(),
            before == slides_view(sorted@),
            run_upto(before, slide@.0) == p + run_upto(before.skip(p as int), slide@.0),
        decreases sorted.len() - p,
    {
        assert(before.skip(p as int).drop_first() == before.skip(p + 1));
        assert(before[p as int] == sorted@[p as int]@);
        p += 1;
    }
    proof {
        if p < sorted.len() {
            assert(before[p as int] == sorted@[p as int]@);
        }
    }
    let ghost view = slide@;
    sorted.insert(p, slide);
    assert(slides_view(sorted@) == before.insert(p as int, view));
}

/// The line that stands for a slide: `[Slide <number>] <text>`.
pub open spec fn slide_line(slide: (nat, Seq<char>)) -> Seq<char> {
    "[Slide "@ + decimal(slide.0) + "] "@ + slide.1
}

/// The lines of the slides, one under the other.
pub open spec fn slides_text(slides: Seq<(nat, Seq<char>)>) -> Seq<char> {
    join_of(slides.map_values(|s: (nat, Seq<char>)| slide_line(s)), "\n"@)
}

/// Writes the slides out, one line each.
pub fn write_slides(slides: &Vec<Slide>) -> (r: Vec<char>)
    ensures
        r@ == slides_text(slides_view(slides@)),
{
    let ghost all = slides_view(slides@).map_values(|s: (nat, Seq<char>)| slide_line(s));
    let mut out: Vec<char> = Vec::new();
    let mut i: usize = 0;
    while i < slides.len()
        invariant
            i <= slides.len(),
            all == slides_view(slides@).map_values(|s: (nat, Seq<char>)| slide_line(s)),
            out@ == join_of(all.take(i as int), "\n"@),
        decreases slides.len() - i,
    {
        let mut line = chars_of("[Slide ");
        push_decimal(&mut line, slides[i].number as u64);
        push_str(&mut line, "] ");
        push_all(&mut line, &slides[i].text);
        assert(line@ == slide_line(slides@[i as int]@));
        assert(all.take(i + 1).drop_last() == all.take(i as int));
        assert(all.take(i + 1).last() == line@);
        push_joined(&mut out, i == 0, "\n", &line);
        i += 1;
    }
    assert(all.take(slides.len() as int) == all);
    out
}

/// The slides with text among the entries `names` of the archive `bytes`, in
/// the order of the entries; the first entry of a slide that cannot be read
/// ends the reading.
pub open spec fn slides_among(bytes: Seq<u8>, names: Seq<Seq<char>>) -> Result<
    Seq<(nat, Seq<char>)>,
    (ExtractFault, Seq<char>),
>
    decreases names.len(),
{
    if names.len() == 0 {
        Ok(Seq::empty())
    } else {
        match slides_among(bytes, names.drop_last()) {
            Err(e) => Err(e),
            Ok(found) => match slide_number_of(names.last()) {
                None => Ok(found),
                Some(number) => match archive_entry(bytes, names.last()) {
                    Err((ArchiveFault::NotAnArchive, d)) => Err((ExtractFault::NotAPptx, d)),
                    Err((ArchiveFault::NoSuchEntry, d)) => Err((ExtractFault::PptxEntry, d)),
                    Err((ArchiveFault::BadEntry, d)) => Err((ExtractFault::Unreadable, d)),
                    Ok(xml) => if slide_text(xml).len() > 0 {
                        Ok(found.push((number, slide_text(xml))))
                    } else {
                        Ok(found)
                    },
                },
            },
        }
    }
}

/// The text of the presentation `bytes`: a line for each slide that holds
/// text, in the order of the slides' numbers.
pub open spec fn pptx_text_of(bytes: Seq<u8>) -> Result<Seq<char>, (ExtractFault, Seq<char>)> {
    match archive_names(bytes) {
        Err((ArchiveFault::NotAnArchive, d)) => Err((ExtractFault::NotAPptx, d)),
        Err((_, d)) => Err((ExtractFault::PptxEntry, d)),
        Ok(names) => match slides_among(bytes, names) {
            Err(e) => Err(e),
            Ok(found) => Ok(slides_text(ordered(found))),
        },
    }
}

/// The text of the presentation `bytes`.
pub fn extract_pptx(bytes: &[u8]) -> (r: Result<String, ExtractError>)
    ensures
        outcome(r) == pptx_text_of(bytes@),
{
    let names = match read_names(bytes) {
        Ok(names) => names,
        Err(e) => {
            return match e.fault {
                ArchiveFault::NotAnArchive => Err(
                    ExtractError::with(ExtractFault::NotAPptx, e.detail),
                ),
                _ => Err(ExtractError::with(ExtractFault::PptxEntry, e.detail)),
            };
        },
    };
    let mut sorted: Vec<Slide> = Vec::new();
    let ghost all = strings(names@);
    let mut i: usize = 0;
    while i < names.len()
        invariant
            i <= names.len(),
            all == strings(names@),
            archive_names(bytes@) == Ok::<Seq<Seq<char>>, (ArchiveFault, Seq<char>)>(all),
            slides_among(bytes@, all.take(i as int)) matches Ok(found) && slides_view(sorted@)
                == ordered(found),
        decreases names.len() - i,
    {
        assert(all.take(i + 1).drop_last() == all.take(i as int));
        assert(all.take(i + 1).last() == names@[i as int]@);
        let name = names[i].as_str();
        match slide_number(name) {
            None => {},
            Some(number) => {
                match read_entry(bytes, name) {
                    Err(e) => {
                        proof {
                            assert(all.take(names.len() as int) == all);
                            lemma_slides_fail(bytes@, all, i + 1);
                        }
                        return match e.fault {
                            ArchiveFault::NotAnArchive => Err(
                                ExtractError::with(ExtractFault::NotAPptx, e.detail),
                            ),
                            ArchiveFault::NoSuchEntry => Err(
                                ExtractError::with(ExtractFault::PptxEntry, e.detail),
                            ),
                            ArchiveFault::BadEntry => Err(
                                ExtractError::with(ExtractFault::Unreadable, e.detail),
                            ),
                        };
                    },
                    Ok(xml) => {
                        let chars = chars_of(xml.as_str());
                        let plain = strip_markup(&chars, false);
                        let text = trim(&plain, CharClass::Space);
                        if text.len() > 0 {
                            let ghost found = slides_among(bytes@, all.take(i as int))->Ok_0;
                            assert(found.push((number as nat, text@)).drop_last() == found);
                            place_slide(&mut sorted, Slide { number, text });
                        }
                    },
                }
            },
        }
        i += 1;
    }
    assert(all.take(names.len() as int) == all);
    let out = write_slides(&sorted);
    Ok(string_of(&out))
}

/// Once the reading of the slides has failed at some entry, it has failed for
/// the whole list, in the same way.
proof fn lemma_slides_fail(bytes: Seq<u8>, names: Seq<Seq<char>>, i: int)
    requires
        0 <= i <= names.len(),
        slides_among(bytes, names.take(i)) is Err,
    ensures
        slides_among(bytes, names) == slides_among(bytes, names.take(i)),
    decreases names.len(),
{
    if i == names.len() {
        assert(names.take(i) == names);
    } else {
        assert(names.drop_last().take(i) == names.take(i));
        lemma_slides_fail(bytes, names.drop_last(), i);
    }
}

} // verus!
