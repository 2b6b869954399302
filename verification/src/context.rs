//! What is known of a file, put together for the prompt.
//!
//! The caller lists the directory and asks the file system for the size and
//! the date. The names, the choice of neighbours and the size as a person
//! reads it are worked out here.

use vstd::prelude::*;
use crate::document::{name_of, FileFacts};
use crate::paths::{file_name, file_name_of, parent, parent_of};
use crate::prompt::{FileContext, FileContextView};
use crate::text::{
    chars_of, decimal, opt_text, owned, push_decimal, push_str, same_str, string_of, strings,
};

verus! {

/// How many neighbours of a file are shown to the model.
pub const SIBLING_LIMIT: usize = 20;

/// `num / den`, rounded to the nearest whole number, a tie going to the even
/// one.
pub open spec fn half_even(num: nat, den: nat) -> nat
    recommends
        den > 0,
{
    let q = num / den;
    let r = num % den;
    if 2 * r > den || (2 * r == den && q % 2 == 1) {
        q + 1
    } else {
        q
    }
}

/// The distance between neighbouring double-precision numbers around `n`:
/// one up to 2^53, and twice as much for every bit beyond.
pub open spec fn spacing(n: nat) -> nat {
    if n < 0x20_0000_0000_0000 {
        1
    } else if n < 0x40_0000_0000_0000 {
        2
    } else if n < 0x80_0000_0000_0000 {
        4
    } else if n < 0x100_0000_0000_0000 {
        8
    } else if n < 0x200_0000_0000_0000 {
        16
    } else if n < 0x400_0000_0000_0000 {
        32
    } else if n < 0x800_0000_0000_0000 {
        64
    } else if n < 0x1000_0000_0000_0000 {
        128
    } else if n < 0x2000_0000_0000_0000 {
        256
    } else if n < 0x4000_0000_0000_0000 {
        512
    } else if n < 0x8000_0000_0000_0000 {
        1024
    } else {
        2048
    }
}

/// The double-precision number nearest to `n`, a tie going to the even
/// one. Sizes are shown as a double-precision number would be.
pub open spec fn nearest_double(n: nat) -> nat {
    half_even(n, spacing(n)) * spacing(n)
}

/// Sizes below 2^53 bytes are double-precision numbers themselves: for them
/// nothing is rounded before the division.
pub proof fn lemma_small_sizes_are_exact(n: nat)
    requires
        n < 0x20_0000_0000_0000,
    ensures
        nearest_double(n) == n,
{
}

/// The tenths of mebibytes in `bytes`, rounded.
pub open spec fn tenths_of_mib(bytes: nat) -> nat {
    half_even(nearest_double(bytes) * 10, 0x10_0000)
}

/// A size as a person reads it: bytes below one kibibyte; whole kibibytes
/// below one mebibyte; mebibytes with one decimal from there on. Rounding is
/// to the nearest, a tie going to the even digit.
pub open spec fn size_text(bytes: nat) -> Seq<char> {
    if bytes < 1024 {
        decimal(bytes) + "B"@
    } else if bytes < 0x10_0000 {
        decimal(half_even(bytes, 1024)) + "KB"@
    } else {
        decimal(tenths_of_mib(bytes) / 10) + "."@ + decimal(tenths_of_mib(bytes) % 10) + "MB"@
    }
}

/// `num / den`, rounded to the nearest, a tie going to the even one.
fn round_half_even(num: u128, den: u128) -> (r: u128)
    requires
        den > 0,
        num < 0x1_0000_0000_0000_0000_0000,
        den < 0x1_0000_0000_0000_0000_0000,
    ensures
        r == half_even(num as nat, den as nat),
{
    let q = num / den;
    let r = num % den;
    if 2 * r > den || (2 * r == den && q % 2 == 1) {
        q + 1
    } else {
        q
    }
}

/// The distance between neighbouring double-precision numbers around `n`.
fn spacing_at(n: u64) -> (r: u64)
    ensures
        r == spacing(n as nat),
        1 <= r <= 2048,
{
    if n < 0x20_0000_0000_0000 {
        1
    } else if n < 0x40_0000_0000_0000 {
        2
    } else if n < 0x80_0000_0000_0000 {
        4
    } else if n < 0x100_0000_0000_0000 {
        8
    } else if n < 0x200_0000_0000_0000 {
        16
    } else if n < 0x400_0000_0000_0000 {
        32
    } else if n < 0x800_0000_0000_0000 {
        64
    } else if n < 0x1000_0000_0000_0000 {
        128
    } else if n < 0x2000_0000_0000_0000 {
        256
    } else if n < 0x4000_0000_0000_0000 {
        512
    } else if n < 0x8000_0000_0000_0000 {
        1024
    } else {
        2048
    }
}

/// Writes a size as a person reads it.
pub fn format_file_size(bytes: u64) -> (r: String)
    ensures
        r@ == size_text(bytes as nat),
{
    let mut out: Vec<char> = Vec::new();
    if bytes < 1024 {
        push_decimal(&mut out, bytes);
        push_str(&mut out, "B");
    } else if bytes < 0x10_0000 {
        let kib = round_half_even(bytes as u128, 1024);
        assert(kib <= 1024);
        push_decimal(&mut out, kib as u64);
        push_str(&mut out, "KB");
    } else {
        let unit = spacing_at(bytes);
        let steps = round_half_even(bytes as u128, unit as u128);
        proof {
            let b = bytes as int;
            let u = unit as int;
            let q = b / u;
            vstd::arithmetic::div_mod::lemma_fundamental_div_mod(b, u);
            vstd::arithmetic::div_mod::lemma_mod_pos_bound(b, u);
            assert(steps * u <= u * q + u) by (nonlinear_arith)
                requires
                    0 <= steps <= q + 1,
                    u >= 1,
            ;
        }
        let double: u128 = steps * (unit as u128);
        let tenths = round_half_even(double * 10, 0x10_0000);
        push_decimal(&mut out, (tenths / 10) as u64);
        push_str(&mut out, ".");
        push_decimal(&mut out, (tenths % 10) as u64);
        push_str(&mut out, "MB");
    }
    string_of(&out)
}

/// Whether a name is that of a hidden file: it starts with a dot.
pub open spec fn hidden(name: Seq<char>) -> bool {
    name.len() > 0 && name[0] == '.'
}

/// Whether `name` is that of a hidden file.
pub fn is_hidden(name: &str) -> (r: bool)
    ensures
        r == hidden(name@),
{
    let chars = chars_of(name);
    chars.len() > 0 && chars[0] == '.'
}

/// The neighbours shown for a file: of the files beside it, in the order
/// given, those that are not hidden and are not the file itself, up to
/// `limit` of them.
pub open spec fn siblings_of(files: Seq<Seq<char>>, current: Option<Seq<char>>, limit: nat) -> Seq<
    Seq<char>,
>
    decreases files.len(),
{
    if files.len() == 0 {
        Seq::empty()
    } else {
        let before = siblings_of(files.drop_last(), current, limit);
        let name = files.last();
        if before.len() < limit && !hidden(name) && current != Some(name) {
            before.push(name)
        } else {
            before
        }
    }
}

/// Picks the neighbours shown for a file among the regular files of its
/// directory. `current` is the file's own name, if it has one.
pub fn pick_siblings(files: &Vec<String>, current: &Option<String>, limit: usize) -> (r: Vec<
    String,
>)
    ensures
        strings(r@) == siblings_of(strings(files@), opt_text(*current), limit as nat),
        r@.len() <= limit,
{
    let ghost all = strings(files@);
    let mut picked: Vec<String> = Vec::new();
    let mut i: usize = 0;
    assert(strings(picked@) == Seq::<Seq<char>>::empty());
    while i < files.len()
        invariant
            i <= files.len(),
            all == strings(files@),
            picked@.len() <= limit,
            strings(picked@) == siblings_of(
                all.take(i as int),
                opt_text(*current),
                limit as nat,
            ),
        decreases files.len() - i,
    {
        assert(all.take(i + 1).drop_last() == all.take(i as int));
        assert(all.take(i + 1).last() == files@[i as int]@);
        let name = files[i].as_str();
        let own = match current {
            Some(c) => same_str(c.as_str(), name),
            None => false,
        };
        if picked.len() < limit && !is_hidden(name) && !own {
            let ghost before = strings(picked@);
            picked.push(owned(name));
            assert(strings(picked@) == before.push(name@));
        }
        i += 1;
    }
    assert(all.take(files.len() as int) == all);
    picked
}

/// The name of the directory that holds the file at `path`; empty where the
/// path names none.
pub open spec fn parent_name_of(path: Seq<char>) -> Seq<char> {
    match parent_of(path) {
        Some(p) => match file_name_of(p) {
            Some(n) => n,
            None => Seq::empty(),
        },
        None => Seq::empty(),
    }
}

/// What is known of the file at `path`, given the regular files of its
/// directory and the file system's record of it (nothing where the record
/// could not be read).
pub open spec fn context_of(
    path: Seq<char>,
    files: Seq<Seq<char>>,
    facts: Option<(nat, Seq<char>)>,
) -> FileContextView {
    FileContextView {
        original_name: name_of(path),
        parent_dir: parent_name_of(path),
        sibling_names: siblings_of(files, file_name_of(path), SIBLING_LIMIT as nat),
        modified_at: match facts {
            Some((_, modified)) => modified,
            None => Seq::empty(),
        },
        file_size: match facts {
            Some((size, _)) => size_text(size),
            None => Seq::empty(),
        },
    }
}

/// The view of an optional record.
pub open spec fn opt_facts(facts: Option<&FileFacts>) -> Option<(nat, Seq<char>)> {
    match facts {
        Some(f) => Some((f.size as nat, f.modified@)),
        None => None,
    }
}

/// Puts together what is known of the file at `path`.
pub fn collect_file_context(path: &str, files: &Vec<String>, facts: Option<&FileFacts>) -> (r:
    FileContext)
    ensures
        r@ == context_of(path@, strings(files@), opt_facts(facts)),
{
    let own = file_name(path);
    let sibling_names = pick_siblings(files, &own, SIBLING_LIMIT);
    let original_name = match &own {
        Some(n) => n.clone(),
        None => String::new(),
    };
    let parent_dir = match parent(path) {
        Some(p) => match file_name(p.as_str()) {
            Some(n) => n,
            None => String::new(),
        },
        None => String::new(),
    };
    let (file_size, modified_at) = match facts {
        Some(f) => (format_file_size(f.size), f.modified.clone()),
        None => (String::new(), String::new()),
    };
    FileContext { original_name, parent_dir, sibling_names, modified_at, file_size }
}

} // verus!
