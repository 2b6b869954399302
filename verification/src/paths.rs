//! The parts of a path.
//!
//! No function here touches the file system: each computes on the text of a
//! path. How a path falls into components is the business of `std::path`,
//! on the platform the library is built for: the file name, the parent and
//! the joining of two paths are taken from it and named, not restated. How a
//! file name falls into stem and extension is a matter of its last dot, and
//! is worked out here.

use vstd::prelude::*;
use crate::text::{chars_of, is_str, opt_text, slice_of, string_of};

verus! {

/// What `Path::file_name` returns for a path: its last component, if it has one.
pub uninterp spec fn file_name_of(path: Seq<char>) -> Option<Seq<char>>;

/// What `Path::parent` returns for a path: the path without its last
/// component.
pub uninterp spec fn parent_of(path: Seq<char>) -> Option<Seq<char>>;

/// What `Path::join` returns: `base` extended by `name`.
pub uninterp spec fn joined(base: Seq<char>, name: Seq<char>) -> Seq<char>;

/// `Path::file_name` on the text of a path. The result depends on the text
/// alone.
#[verifier::external_body]
pub(crate) fn file_name(path: &str) -> (r: Option<String>)
    ensures
        opt_text(r) == file_name_of(path@),
{
    std::path::Path::new(path).file_name().map(|n| n.to_string_lossy().into_owned())
}

/// `Path::parent` on the text of a path. The result depends on the text alone.
#[verifier::external_body]
pub(crate) fn parent(path: &str) -> (r: Option<String>)
    ensures
        opt_text(r) == parent_of(path@),
{
    std::path::Path::new(path).parent().map(|p| p.to_string_lossy().into_owned())
}

/// `Path::join` on the texts of two paths. The result depends on the two texts
/// alone.
#[verifier::external_body]
pub(crate) fn join(base: &str, name: &str) -> (r: String)
    ensures
        r@ == joined(base@, name@),
{
    std::path::Path::new(base).join(name).to_string_lossy().into_owned()
}

/// The index of the last dot of `name`; -1 where it has none.
pub open spec fn last_dot(name: Seq<char>) -> int
    decreases name.len(),
{
    if name.len() == 0 {
        -1
    } else if name.last() == '.' {
        name.len() - 1
    } else {
        last_dot(name.drop_last())
    }
}

/// The last dot lies within the name, is a dot, and no dot follows it.
pub proof fn lemma_last_dot(name: Seq<char>)
    ensures
        -1 <= last_dot(name) < name.len(),
        last_dot(name) >= 0 ==> name[last_dot(name)] == '.',
        forall|i: int| last_dot(name) < i < name.len() ==> #[trigger] name[i] != '.',
    decreases name.len(),
{
    if name.len() > 0 && name.last() != '.' {
        let rest = name.drop_last();
        lemma_last_dot(rest);
        assert forall|i: int| last_dot(name) < i < name.len() implies #[trigger] name[i]
            != '.' by {
            if i < name.len() - 1 {
                assert(name[i] == rest[i]);
            }
        }
        if last_dot(name) >= 0 {
            assert(name[last_dot(name)] == rest[last_dot(rest)]);
        }
    }
}

/// Whether a file name has an extension: it has a dot that is not its first
/// character, and it is not `..`.
pub open spec fn has_extension(name: Seq<char>) -> bool {
    last_dot(name) > 0 && name != ".."@
}

/// The extension of a file name: what follows its last dot. A name without
/// a dot has none, and neither has a name whose only dot is its first
/// character.
pub open spec fn extension_in(name: Seq<char>) -> Option<Seq<char>> {
    if has_extension(name) {
        Some(name.skip(last_dot(name) + 1))
    } else {
        None
    }
}

/// The stem of a file name: what stands before the last dot where the name
/// has an extension, and the whole name where it has none.
pub open spec fn stem_in(name: Seq<char>) -> Seq<char> {
    if has_extension(name) {
        name.take(last_dot(name))
    } else {
        name
    }
}

/// A file name is its stem, and where it has an extension a dot and the
/// extension after it.
pub proof fn lemma_stem_and_extension(name: Seq<char>)
    ensures
        match extension_in(name) {
            Some(ext) => name == stem_in(name) + "."@ + ext,
            None => name == stem_in(name),
        },
{
    lemma_last_dot(name);
    reveal_strlit(".");
    if has_extension(name) {
        let i = last_dot(name);
        assert(name == name.take(i) + "."@ + name.skip(i + 1));
    }
}

/// The extension of the file that a path names, as `Path::extension` is
/// documented: that of the path's file name.
pub open spec fn extension_of(path: Seq<char>) -> Option<Seq<char>> {
    match file_name_of(path) {
        Some(name) => extension_in(name),
        None => None,
    }
}

/// The stem of the file that a path names, as `Path::file_stem` is
/// documented: that of the path's file name.
pub open spec fn file_stem_of(path: Seq<char>) -> Option<Seq<char>> {
    match file_name_of(path) {
        Some(name) => Some(stem_in(name)),
        None => None,
    }
}

/// Where the file name `name` parts into stem and extension: the index of
/// its last dot, if it has an extension.
fn split_point(name: &Vec<char>) -> (r: Option<usize>)
    ensures
        match r {
            Some(i) => has_extension(name@) && i == last_dot(name@) && i < name@.len(),
            None => !has_extension(name@),
        },
{
    let mut n: usize = name.len();
    assert(name@.take(n as int) == name@);
    while n > 0 && name[n - 1] != '.'
        invariant
            n <= name.len(),
            last_dot(name@) == last_dot(name@.take(n as int)),
        decreases n,
    {
        assert(name@.take(n as int).drop_last() == name@.take(n - 1));
        n -= 1;
    }
    if n <= 1 || is_str(name, "..") {
        None
    } else {
        Some(n - 1)
    }
}

/// The extension of the file name `name`.
pub fn extension_in_name(name: &str) -> (r: Option<String>)
    ensures
        opt_text(r) == extension_in(name@),
{
    let chars = chars_of(name);
    match split_point(&chars) {
        None => None,
        Some(i) => {
            let ext = slice_of(&chars, i + 1, chars.len());
            Some(string_of(&ext))
        },
    }
}

/// The stem of the file name `name`.
pub fn stem_in_name(name: &str) -> (r: String)
    ensures
        r@ == stem_in(name@),
{
    let chars = chars_of(name);
    match split_point(&chars) {
        None => string_of(&chars),
        Some(i) => {
            let stem = slice_of(&chars, 0, i);
            string_of(&stem)
        },
    }
}

/// The extension of the file that `path` names.
pub fn extension(path: &str) -> (r: Option<String>)
    ensures
        opt_text(r) == extension_of(path@),
{
    match file_name(path) {
        None => None,
        Some(name) => extension_in_name(name.as_str()),
    }
}

/// The stem of the file that `path` names.
pub fn file_stem(path: &str) -> (r: Option<String>)
    ensures
        opt_text(r) == file_stem_of(path@),
{
    match file_name(path) {
        None => None,
        Some(name) => Some(stem_in_name(name.as_str())),
    }
}

} // verus!
