//! Which files of a folder are offered for naming, and in what order.
//!
//! The caller walks the directories. Whether an entry is taken, whether a
//! directory is entered, and how the files found are ordered is decided here.

use vstd::prelude::*;
use crate::context::{hidden, is_hidden};
use crate::document::{lower_extension, lower_extension_of};
use crate::paths::{extension, extension_of, file_name, file_name_of};
use crate::rename::FileInfo;
use crate::text::{chars_of, is_str, owned, string_of, strings, to_unicode_lower, unicode_lower};
use crate::watch::has_extension;

verus! {

/// A file that can be named: where it is, what it is called, its extension
/// in lower case, and its size in bytes.
#[derive(Clone, Debug, PartialEq, Eq)]
pub struct ScannedFile {
    pub path: String,
    pub name: String,
    pub ext: String,
    pub size: u64,
}

/// Whether files with the lower-case extension `ext` can be named.
pub open spec fn supported(ext: Seq<char>) -> bool {
    ext == "pdf"@ || ext == "docx"@ || ext == "pptx"@ || ext == "xlsx"@ || ext == "xls"@ || ext
        == "txt"@ || ext == "md"@ || ext == "jpg"@ || ext == "jpeg"@ || ext == "png"@ || ext
        == "heic"@ || ext == "webp"@ || ext == "tiff"@
}

/// Whether files with the lower-case extension `ext` can be named.
pub fn is_supported(ext: &Vec<char>) -> (r: bool)
    ensures
        r == supported(ext@),
{
    is_str(ext, "pdf") || is_str(ext, "docx") || is_str(ext, "pptx") || is_str(ext, "xlsx")
        || is_str(ext, "xls") || is_str(ext, "txt") || is_str(ext, "md") || is_str(ext, "jpg")
        || is_str(ext, "jpeg") || is_str(ext, "png") || is_str(ext, "heic") || is_str(
        ext,
        "webp",
    ) || is_str(ext, "tiff")
}

/// What is taken of the file at `path`: its name and its extension in lower
/// case, if the extension is supported and the file is not hidden.
pub open spec fn scanned_of(path: Seq<char>) -> Option<(Seq<char>, Seq<char>)> {
    match extension_of(path) {
        None => None,
        Some(e) => if !supported(unicode_lower(e)) {
            None
        } else {
            match file_name_of(path) {
                None => None,
                Some(name) => if hidden(name) {
                    None
                } else {
                    Some((name, unicode_lower(e)))
                },
            }
        },
    }
}

/// The file at `path` as a scanned file of `size` bytes, if it is taken.
/// Nothing but the path is read, so that the caller need not ask the file
/// system about files that are passed over.
pub fn scanned_file(path: &str, size: u64) -> (r: Option<ScannedFile>)
    ensures
        r is Some <==> scanned_of(path@) is Some,
        r matches Some(f) ==> f.path@ == path@ && f.size == size && (f.name@, f.ext@)
            == scanned_of(path@)->0,
{
    let ext = match extension(path) {
        None => {
            return None;
        },
        Some(e) => {
            let chars = chars_of(e.as_str());
            to_unicode_lower(&chars)
        },
    };
    if !is_supported(&ext) {
        return None;
    }
    let name = match file_name(path) {
        None => {
            return None;
        },
        Some(n) => n,
    };
    if is_hidden(name.as_str()) {
        return None;
    }
    Some(ScannedFile { path: owned(path), name, ext: string_of(&ext), size })
}

/// The file at `path` as a scanned file whose size is yet to be filled in,
/// if it is taken.
pub fn try_make_scanned_fast(path: &str) -> (r: Option<ScannedFile>)
    ensures
        r is Some <==> scanned_of(path@) is Some,
        r matches Some(f) ==> f.path@ == path@ && f.size == 0 && (f.name@, f.ext@) == scanned_of(
            path@,
        )->0,
{
    scanned_file(path, 0)
}

/// Whether a scan enters the directory `name` that it found at depth
/// `depth`: hidden directories are passed over, and so is what lies deeper
/// than `max_depth`.
pub fn enters(name: &str, depth: usize, max_depth: usize) -> (r: bool)
    ensures
        r == (!hidden(name@) && depth < max_depth),
{
    !is_hidden(name) && depth < max_depth
}

/// Whether a folder's entry `name` at `path` is listed, given the
/// extensions asked for: hidden entries never are; with no extensions asked
/// for every other entry is; else the entry's extension, in lower case, must
/// be one of them.
pub open spec fn kept(name: Seq<char>, path: Seq<char>, exts: Seq<Seq<char>>) -> bool {
    !hidden(name) && (exts.len() == 0 || (extension_of(path) is Some && exts.contains(
        lower_extension_of(path),
    )))
}

/// Whether a folder's entry is listed. The caller asks the file system
/// whether the entry is a file only for entries that are kept.
pub fn keeps_entry(name: &str, path: &str, exts: &Vec<String>) -> (r: bool)
    ensures
        r == kept(name@, path@, strings(exts@)),
{
    if is_hidden(name) {
        return false;
    }
    if exts.len() == 0 {
        return true;
    }
    match extension(path) {
        None => false,
        Some(_) => {
            let ext = lower_extension(path);
            has_extension(exts, &ext)
        },
    }
}

/// Whether `a` comes no later than `b` when texts are ordered character by
/// character, a shorter text before its extensions.
pub open spec fn precedes(a: Seq<char>, b: Seq<char>) -> bool
    decreases a.len(),
{
    if a.len() == 0 {
        true
    } else if b.len() == 0 {
        false
    } else if a[0] != b[0] {
        (a[0] as u32) < (b[0] as u32)
    } else {
        precedes(a.drop_first(), b.drop_first())
    }
}

/// Of two texts one comes no later than the other.
pub proof fn lemma_precedes_total(a: Seq<char>, b: Seq<char>)
    ensures
        precedes(a, b) || precedes(b, a),
    decreases a.len(),
{
    if a.len() > 0 && b.len() > 0 {
        if a[0] == b[0] {
            lemma_precedes_total(a.drop_first(), b.drop_first());
        } else {
            vstd::utf8::char_u32_cast(a[0], a[0] as u32);
            vstd::utf8::char_u32_cast(b[0], b[0] as u32);
        }
    }
}

/// What comes no later than something that comes no later than a third
/// comes no later than the third.
pub proof fn lemma_precedes_transitive(a: Seq<char>, b: Seq<char>, c: Seq<char>)
    requires
        precedes(a, b),
        precedes(b, c),
    ensures
        precedes(a, c),
    decreases a.len(),
{
    if a.len() > 0 {
        assert(b.len() > 0);
        assert(c.len() > 0);
        if a[0] == b[0] && b[0] == c[0] {
            lemma_precedes_transitive(a.drop_first(), b.drop_first(), c.drop_first());
        }
    }
}

/// Whether `a` comes no later than `b`.
pub fn comes_before(a: &Vec<char>, b: &Vec<char>) -> (r: bool)
    ensures
        r == precedes(a@, b@),
{
    let mut i: usize = 0;
    assert(a@.skip(0) == a@ && b@.skip(0) == b@);
    while i < a.len()
        invariant
            i <= a.len(),
            i <= b.len(),
            precedes(a@, b@) == precedes(a@.skip(i as int), b@.skip(i as int)),
        decreases a.len() - i,
    {
        if i >= b.len() {
            return false;
        }
        if a[i] != b[i] {
            return (a[i] as u32) < (b[i] as u32);
        }
        assert(a@.skip(i as int).drop_first() == a@.skip(i + 1));
        assert(b@.skip(i as int).drop_first() == b@.skip(i + 1));
        i += 1;
    }
    true
}

/// The names of a sequence of files.
pub open spec fn names(files: Seq<FileInfo>) -> Seq<Seq<char>> {
    files.map_values(|f: FileInfo| f.name@)
}

/// How many files at the start of `files` have a name that comes no later
/// than `name`.
pub open spec fn run_before(files: Seq<FileInfo>, name: Seq<char>) -> nat
    decreases files.len(),
{
    if files.len() > 0 && precedes(files[0].name@, name) {
        1 + run_before(files.drop_first(), name)
    } else {
        0
    }
}

/// The files in the order of their names; files of one name stay in the
/// order in which they came.
pub open spec fn by_name(files: Seq<FileInfo>) -> Seq<FileInfo>
    decreases files.len(),
{
    if files.len() == 0 {
        Seq::empty()
    } else {
        let before = by_name(files.drop_last());
        before.insert(run_before(before, files.last().name@) as int, files.last())
    }
}

/// Whether the names of `files` never fall.
pub open spec fn sorted(files: Seq<FileInfo>) -> bool {
    forall|i: int, j: int| 0 <= i <= j < files.len() ==> precedes(files[i].name@, files[j].name@)
}

/// The starting run is within the sequence and made of names that come no
/// later; in a sorted sequence every name after it comes no earlier.
proof fn lemma_run_before(files: Seq<FileInfo>, name: Seq<char>)
    ensures
        run_before(files, name) <= files.len(),
        forall|i: int|
            0 <= i < run_before(files, name) ==> precedes((#[trigger] files[i]).name@, name),
        sorted(files) ==> forall|i: int|
            run_before(files, name) <= i < files.len() ==> precedes(
                name,
                (#[trigger] files[i]).name@,
            ),
    decreases files.len(),
{
    if files.len() > 0 && precedes(files[0].name@, name) {
        let rest = files.drop_first();
        lemma_run_before(rest, name);
        assert forall|i: int| 0 <= i < run_before(files, name) implies precedes(
            (#[trigger] files[i]).name@,
            name,
        ) by {
            if i > 0 {
                assert(files[i] == rest[i - 1]);
            }
        }
        if sorted(files) {
            assert forall|i: int, j: int| 0 <= i <= j < rest.len() implies precedes(
                rest[i].name@,
                rest[j].name@,
            ) by {
                assert(rest[i] == files[i + 1] && rest[j] == files[j + 1]);
            }
            assert forall|i: int| run_before(files, name) <= i < files.len() implies precedes(
                name,
                (#[trigger] files[i]).name@,
            ) by {
                assert(files[i] == rest[i - 1]);
            }
        }
    } else if sorted(files) {
        assert forall|i: int| 0 <= i < files.len() implies precedes(
            name,
            (#[trigger] files[i]).name@,
        ) by {
            lemma_precedes_total(files[0].name@, name);
            assert(precedes(files[0].name@, files[i].name@));
            lemma_precedes_transitive(name, files[0].name@, files[i].name@);
        }
    }
}

/// Ordering by name gives a sorted sequence that holds exactly the files
/// that went in.
pub proof fn lemma_by_name(files: Seq<FileInfo>)
    ensures
        sorted(by_name(files)),
        by_name(files).len() == files.len(),
        by_name(files).to_multiset() == files.to_multiset(),
    decreases files.len(),
{
    if files.len() == 0 {
        assert(files == Seq::<FileInfo>::empty());
    } else {
        let before = by_name(files.drop_last());
        let x = files.last();
        let p = run_before(before, x.name@) as int;
        let after = by_name(files);
        lemma_by_name(files.drop_last());
        lemma_run_before(before, x.name@);
        assert(after == before.insert(p, x));
        assert forall|i: int, j: int| 0 <= i <= j < after.len() implies precedes(
            after[i].name@,
            after[j].name@,
        ) by {
            let a = if i < p {
                before[i]
            } else if i == p {
                x
            } else {
                before[i - 1]
            };
            let b = if j < p {
                before[j]
            } else if j == p {
                x
            } else {
                before[j - 1]
            };
            assert(after[i] == a && after[j] == b);
            if i == p && j == p {
                lemma_precedes_total(x.name@, x.name@);
            }
            if i < p && j > p {
                assert(precedes(before[i].name@, before[j - 1].name@));
            }
        }
        assert(after[p] == x);
        assert(after.remove(p) == before);
        vstd::seq_lib::to_multiset_remove(after, p);
        after.to_multiset_ensures();
        assert(after.to_multiset() == before.to_multiset().insert(x));
        assert(files == files.drop_last().push(x));
        vstd::seq_lib::to_multiset_build(files.drop_last(), x);
    }
}

/// Puts `file` into `sorted`, after the files whose name comes no later.
fn place_file(sorted: &mut Vec<FileInfo>, file: FileInfo)
    ensures
        final(sorted)@ == old(sorted)@.insert(
            run_before(old(sorted)@, file.name@) as int,
            file,
        ),
{
    let ghost before = sorted@;
    let name = chars_of(file.name.as_str());
    let mut p: usize = 0;
    assert(before.skip(0) == before);
    loop
        invariant
            p <= sorted.len(),
            before == sorted@,
            name@ == file.name@,
            run_before(before, name@) == p + run_before(before.skip(p as int), name@),
        ensures
            p <= sorted.len(),
            before == sorted@,
            run_before(before, file.name@) == p,
        decreases sorted.len() - p,
    {
        if p >= sorted.len() {
            break;
        }
        let other = chars_of(sorted[p].name.as_str());
        if !comes_before(&other, &name) {
            break;
        }
        assert(before.skip(p as int).drop_first() == before.skip(p + 1));
        p += 1;
    }
    sorted.insert(p, file);
}

/// Orders the files of a folder by name.
pub fn sort_by_name(files: Vec<FileInfo>) -> (r: Vec<FileInfo>)
    ensures
        r@ == by_name(files@),
        sorted(r@),
        r@.to_multiset() == files@.to_multiset(),
{
    let ghost all = files@;
    let mut files = files;
    let mut out: Vec<FileInfo> = Vec::new();
    let mut stack: Vec<FileInfo> = Vec::new();
    // Files are taken from the end, so the stack holds them reversed.
    while files.len() > 0
        invariant
            all == files@ + stack@.reverse(),
        decreases files.len(),
    {
        let ghost before = files@;
        let f = files.pop().unwrap();
        let ghost rev = stack@.reverse();
        stack.push(f);
        assert(stack@.reverse() == seq![f] + rev);
        assert(before == files@.push(f));
    }
    assert(all == stack@.reverse());
    while stack.len() > 0
        invariant
            stack@.len() <= all.len(),
            all.take(all.len() - stack@.len()) + stack@.reverse() == all,
            out@ == by_name(all.take(all.len() - stack@.len())),
        decreases stack.len(),
    {
        let ghost n = all.len() - stack@.len();
        let ghost rev = stack@.reverse();
        let f = stack.pop().unwrap();
        assert(rev == seq![f] + stack@.reverse());
        assert(all[n] == f);
        assert(all.take(n + 1).drop_last() == all.take(n));
        place_file(&mut out, f);
    }
    assert(all.take(all.len() as int) == all);
    proof {
        lemma_by_name(all);
    }
    out
}

} // verus!
