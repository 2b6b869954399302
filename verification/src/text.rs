//! Text as sequences of characters.
//!
//! Every function of the library that reads or builds text works on
//! `Vec<char>` and states its contract over `Seq<char>`. This module holds the
//! conversions from and to `str` and `String` and the small vocabulary that
//! the other modules share: classes of characters, trimming, splitting,
//! joining, prefixes and suffixes, lower case and decimal numbers.

use vstd::prelude::*;


verus! {

/// `String::push` of the standard library: the string grows by exactly the
/// character pushed.
pub assume_specification[ String::push ](s: &mut String, c: char)
    ensures
        final(s)@ == old(s)@.push(c),
;

/// What `str::to_lowercase` returns for a text: the lower-case mapping of the
/// Unicode tables that the standard library carries.
pub uninterp spec fn unicode_lower(s: Seq<char>) -> Seq<char>;

/// `str::to_lowercase` of the standard library. The result is a function of
/// the text alone; nothing else is claimed of it.
pub assume_specification[ str::to_lowercase ](s: &str) -> (r: String)
    ensures
        r@ == unicode_lower(s@),
;

/// The view of an optional string.
pub open spec fn opt_text(o: Option<String>) -> Option<Seq<char>> {
    match o {
        Some(s) => Some(s@),
        None => None,
    }
}

/// The view of an optional string slice.
pub open spec fn opt_str(o: Option<&str>) -> Option<Seq<char>> {
    match o {
        Some(s) => Some(s@),
        None => None,
    }
}

/// A string of its own with the characters of `s`.
pub fn owned(s: &str) -> (r: String)
    ensures
        r@ == s@,
{
    s.to_owned()
}

/// The characters of `s`, in order.
pub fn chars_of(s: &str) -> (v: Vec<char>)
    ensures
        v@ == s@,
{
    let mut v: Vec<char> = Vec::new();
    for c in it: s.chars()
        invariant
            v@ == s@.take(it.index() as int),
            it.seq() == s@,
    {
        v.push(c);
    }
    v
}

/// The string made of the characters of `v`, in order.
pub fn string_of(v: &Vec<char>) -> (s: String)
    ensures
        s@ == v@,
{
    let mut s = String::new();
    let mut i: usize = 0;
    while i < v.len()
        invariant
            i <= v.len(),
            s@ == v@.take(i as int),
        decreases v.len() - i,
    {
        s.push(v[i]);
        i += 1;
    }
    s
}

/// Appends the characters of `s` to `v`.
pub fn push_str(v: &mut Vec<char>, s: &str)
    ensures
        final(v)@ == old(v)@ + s@,
{
    let ghost before = v@;
    for c in it: s.chars()
        invariant
            v@ == before + s@.take(it.index() as int),
            it.seq() == s@,
    {
        v.push(c);
    }
}

/// Appends the characters of `w` to `v`.
pub fn push_all(v: &mut Vec<char>, w: &Vec<char>)
    ensures
        final(v)@ == old(v)@ + w@,
{
    let ghost before = v@;
    let mut i: usize = 0;
    while i < w.len()
        invariant
            i <= w.len(),
            v@ == before + w@.take(i as int),
        decreases w.len() - i,
    {
        v.push(w[i]);
        i += 1;
    }
}

/// The characters of `s` from index `from` up to, not including, `to`.
pub fn slice_of(s: &Vec<char>, from: usize, to: usize) -> (r: Vec<char>)
    requires
        from <= to <= s.len(),
    ensures
        r@ == s@.subrange(from as int, to as int),
{
    let mut r: Vec<char> = Vec::new();
    let mut i: usize = from;
    while i < to
        invariant
            from <= i <= to <= s.len(),
            r@ == s@.subrange(from as int, i as int),
        decreases to - i,
    {
        r.push(s[i]);
        i += 1;
    }
    r
}

/// Whether `a` and `b` hold the same characters.
pub fn same_chars(a: &Vec<char>, b: &Vec<char>) -> (r: bool)
    ensures
        r == (a@ == b@),
{
    if a.len() != b.len() {
        return false;
    }
    let mut i: usize = 0;
    while i < a.len()
        invariant
            i <= a.len(),
            a.len() == b.len(),
            a@.take(i as int) == b@.take(i as int),
        decreases a.len() - i,
    {
        if a[i] != b[i] {
            return false;
        }
        assert(a@.take(i + 1) == a@.take(i as int).push(a@[i as int]));
        assert(b@.take(i + 1) == b@.take(i as int).push(b@[i as int]));
        i += 1;
    }
    assert(a@ == a@.take(a.len() as int));
    assert(b@ == b@.take(b.len() as int));
    true
}

/// Whether `a` holds exactly the characters of `s`.
pub fn is_str(a: &Vec<char>, s: &str) -> (r: bool)
    ensures
        r == (a@ == s@),
{
    let b = chars_of(s);
    same_chars(a, &b)
}

/// Whether two strings hold the same characters.
pub fn same_str(a: &str, b: &str) -> (r: bool)
    ensures
        r == (a@ == b@),
{
    let x = chars_of(a);
    is_str(&x, b)
}

/// White space as Unicode defines it (the property `White_Space`).
pub open spec fn is_space(c: char) -> bool {
    let n = c as u32;
    ||| 0x09 <= n <= 0x0D
    ||| n == 0x20
    ||| n == 0x85
    ||| n == 0xA0
    ||| n == 0x1680
    ||| 0x2000 <= n <= 0x200A
    ||| n == 0x2028
    ||| n == 0x2029
    ||| n == 0x202F
    ||| n == 0x205F
    ||| n == 0x3000
}

/// Whether `c` is white space.
pub fn is_whitespace(c: char) -> (b: bool)
    ensures
        b == is_space(c),
{
    let n: u32 = c as u32;
    (0x09 <= n && n <= 0x0D) || n == 0x20 || n == 0x85 || n == 0xA0 || n == 0x1680 || (0x2000 <= n
        && n <= 0x200A) || n == 0x2028 || n == 0x2029 || n == 0x202F || n == 0x205F || n
        == 0x3000
}

/// A class of characters to strip from the ends of a text.
#[derive(Clone, Copy, Debug)]
pub enum CharClass {
    /// White space.
    Space,
    /// One given character.
    One(char),
    /// Either of two given characters.
    Either(char, char),
}

impl CharClass {
    /// Whether `c` belongs to the class.
    pub open spec fn has(self, c: char) -> bool {
        match self {
            CharClass::Space => is_space(c),
            CharClass::One(x) => c == x,
            CharClass::Either(x, y) => c == x || c == y,
        }
    }

    /// Whether `c` belongs to the class.
    pub fn holds(&self, c: char) -> (b: bool)
        ensures
            b == self.has(c),
    {
        match self {
            CharClass::Space => is_whitespace(c),
            CharClass::One(x) => c == *x,
            CharClass::Either(x, y) => c == *x || c == *y,
        }
    }
}

/// How many characters at the start of `s` belong to `k`.
pub open spec fn lead(s: Seq<char>, k: CharClass) -> nat
    decreases s.len(),
{
    if s.len() > 0 && k.has(s[0]) {
        1 + lead(s.drop_first(), k)
    } else {
        0
    }
}

/// How many characters at the end of `s` belong to `k`.
pub open spec fn trail(s: Seq<char>, k: CharClass) -> nat
    decreases s.len(),
{
    if s.len() > 0 && k.has(s.last()) {
        1 + trail(s.drop_last(), k)
    } else {
        0
    }
}

/// `s` without its leading characters of class `k`.
pub open spec fn trim_start_of(s: Seq<char>, k: CharClass) -> Seq<char> {
    s.skip(lead(s, k) as int)
}

/// `s` without its trailing characters of class `k`.
pub open spec fn trim_end_of(s: Seq<char>, k: CharClass) -> Seq<char> {
    s.take(s.len() - trail(s, k))
}

/// `s` without the characters of class `k` at either end.
pub open spec fn trim_of(s: Seq<char>, k: CharClass) -> Seq<char> {
    trim_end_of(trim_start_of(s, k), k)
}

/// The leading run is no longer than the text, and is made of `k` only.
pub proof fn lemma_lead(s: Seq<char>, k: CharClass)
    ensures
        lead(s, k) <= s.len(),
        forall|i: int| 0 <= i < lead(s, k) ==> k.has(#[trigger] s[i]),
        lead(s, k) < s.len() ==> !k.has(s[lead(s, k) as int]),
    decreases s.len(),
{
    if s.len() > 0 && k.has(s[0]) {
        let t = s.drop_first();
        lemma_lead(t, k);
        assert forall|i: int| 0 <= i < lead(s, k) implies k.has(#[trigger] s[i]) by {
            if i > 0 {
                assert(s[i] == t[i - 1]);
            }
        }
        if lead(s, k) < s.len() {
            assert(s[lead(s, k) as int] == t[lead(t, k) as int]);
        }
    }
}

/// The trailing run is no longer than the text, and is made of `k` only.
pub proof fn lemma_trail(s: Seq<char>, k: CharClass)
    ensures
        trail(s, k) <= s.len(),
        forall|i: int| s.len() - trail(s, k) <= i < s.len() ==> k.has(#[trigger] s[i]),
        trail(s, k) < s.len() ==> !k.has(s[s.len() - trail(s, k) - 1]),
    decreases s.len(),
{
    if s.len() > 0 && k.has(s.last()) {
        let t = s.drop_last();
        lemma_trail(t, k);
        assert forall|i: int| s.len() - trail(s, k) <= i < s.len() implies k.has(
            #[trigger] s[i],
        ) by {
            if i < s.len() - 1 {
                assert(s[i] == t[i]);
            }
        }
        if trail(s, k) < s.len() {
            assert(s[s.len() - trail(s, k) - 1] == t[t.len() - trail(t, k) - 1]);
        }
    }
}

/// `s` without its leading characters of class `k`.
pub fn trim_start(s: &Vec<char>, k: CharClass) -> (r: Vec<char>)
    ensures
        r@ == trim_start_of(s@, k),
{
    let mut i: usize = 0;
    assert(s@.skip(0) == s@);
    while i < s.len() && k.holds(s[i])
        invariant
            i <= s.len(),
            lead(s@, k) == i + lead(s@.skip(i as int), k),
        decreases s.len() - i,
    {
        assert(s@.skip(i as int).drop_first() == s@.skip(i + 1));
        i += 1;
    }
    let r = slice_of(s, i, s.len());
    assert(s@.skip(i as int) == s@.subrange(i as int, s.len() as int));
    r
}

/// `s` without its trailing characters of class `k`.
pub fn trim_end(s: &Vec<char>, k: CharClass) -> (r: Vec<char>)
    ensures
        r@ == trim_end_of(s@, k),
{
    let mut n: usize = s.len();
    assert(s@.take(n as int) == s@);
    while n > 0 && k.holds(s[n - 1])
        invariant
            n <= s.len(),
            trail(s@, k) == (s.len() - n) + trail(s@.take(n as int), k),
        decreases n,
    {
        assert(s@.take(n as int).drop_last() == s@.take(n - 1));
        n -= 1;
    }
    slice_of(s, 0, n)
}

/// `s` without the characters of class `k` at either end.
pub fn trim(s: &Vec<char>, k: CharClass) -> (r: Vec<char>)
    ensures
        r@ == trim_of(s@, k),
{
    let t = trim_start(s, k);
    trim_end(&t, k)
}

/// Whether `p` stands at the start of `s`.
pub fn starts_with(s: &Vec<char>, p: &Vec<char>) -> (r: bool)
    ensures
        r == p@.is_prefix_of(s@),
{
    if p.len() > s.len() {
        return false;
    }
    let head = slice_of(s, 0, p.len());
    same_chars(&head, p)
}

/// Whether `p` stands at the end of `s`.
pub fn ends_with(s: &Vec<char>, p: &Vec<char>) -> (r: bool)
    ensures
        r == p@.is_suffix_of(s@),
{
    if p.len() > s.len() {
        return false;
    }
    let tail = slice_of(s, s.len() - p.len(), s.len());
    same_chars(&tail, p)
}

/// The lower-case form of an ASCII capital; any other character unchanged.
pub open spec fn ascii_lower_char(c: char) -> char {
    if 'A' <= c <= 'Z' {
        ((c as u8) + 32) as char
    } else {
        c
    }
}

/// `s` with each ASCII capital put in lower case.
pub open spec fn ascii_lower(s: Seq<char>) -> Seq<char> {
    s.map_values(|c: char| ascii_lower_char(c))
}

/// `s` with each ASCII capital put in lower case.
pub fn to_ascii_lower(s: &Vec<char>) -> (r: Vec<char>)
    ensures
        r@ == ascii_lower(s@),
{
    let mut r: Vec<char> = Vec::new();
    let mut i: usize = 0;
    while i < s.len()
        invariant
            i <= s.len(),
            r@ == ascii_lower(s@.take(i as int)),
        decreases s.len() - i,
    {
        let c = s[i];
        let d = if 'A' <= c && c <= 'Z' {
            ((c as u8) + 32) as char
        } else {
            c
        };
        r.push(d);
        assert(ascii_lower(s@.take(i + 1)) == ascii_lower(s@.take(i as int)).push(d));
        i += 1;
    }
    assert(s@.take(s.len() as int) == s@);
    r
}

/// The lower-case form of `s` by the Unicode tables of the standard library.
pub fn to_unicode_lower(s: &Vec<char>) -> (r: Vec<char>)
    ensures
        r@ == unicode_lower(s@),
{
    let text = string_of(s);
    let low = text.as_str().to_lowercase();
    chars_of(low.as_str())
}

/// The index of the first `c` in `s`, or the length of `s` where it holds none.
pub open spec fn first_index(s: Seq<char>, c: char) -> int
    decreases s.len(),
{
    if s.len() == 0 {
        0
    } else if s[0] == c {
        0
    } else {
        1 + first_index(s.drop_first(), c)
    }
}

/// `first_index` lies within the text, points at `c`, and nothing before it is `c`.
pub proof fn lemma_first_index(s: Seq<char>, c: char)
    ensures
        0 <= first_index(s, c) <= s.len(),
        first_index(s, c) < s.len() ==> s[first_index(s, c)] == c,
        forall|i: int| 0 <= i < first_index(s, c) ==> #[trigger] s[i] != c,
    decreases s.len(),
{
    if s.len() > 0 && s[0] != c {
        let t = s.drop_first();
        lemma_first_index(t, c);
        assert forall|i: int| 0 <= i < first_index(s, c) implies #[trigger] s[i] != c by {
            if i > 0 {
                assert(s[i] == t[i - 1]);
            }
        }
    }
}

/// An index at which `c` stands, with no `c` before it, is the first index.
pub proof fn lemma_first_index_is(s: Seq<char>, c: char, j: int)
    requires
        0 <= j <= s.len(),
        j < s.len() ==> s[j] == c,
        forall|i: int| 0 <= i < j ==> #[trigger] s[i] != c,
    ensures
        first_index(s, c) == j,
{
    lemma_first_index(s, c);
    let f = first_index(s, c);
    if f < j {
        assert(s[f] != c);
    }
}

/// The index in `s` of the first `c` at or after `from`; the length of `s`
/// where there is none.
pub fn find_from(s: &Vec<char>, from: usize, c: char) -> (j: usize)
    requires
        from <= s.len(),
    ensures
        from <= j <= s.len(),
        j - from == first_index(s@.skip(from as int), c),
{
    let mut j: usize = from;
    while j < s.len() && s[j] != c
        invariant
            from <= j <= s.len(),
            forall|i: int| from <= i < j ==> #[trigger] s@[i] != c,
        decreases s.len() - j,
    {
        j += 1;
    }
    proof {
        lemma_first_index_is(s@.skip(from as int), c, j - from);
    }
    j
}

/// The pieces of `s` between the occurrences of `c`: one more piece than
/// there are occurrences, empty pieces included.
pub open spec fn split_of(s: Seq<char>, c: char) -> Seq<Seq<char>>
    decreases s.len(),
{
    let i = first_index(s, c);
    if 0 <= i < s.len() {
        seq![s.take(i)] + split_of(s.skip(i + 1), c)
    } else {
        seq![s]
    }
}

/// The pieces of `s` between the occurrences of `c`.
pub fn split(s: &Vec<char>, c: char) -> (r: Vec<Vec<char>>)
    ensures
        texts(r@) == split_of(s@, c),
{
    let mut r: Vec<Vec<char>> = Vec::new();
    let mut start: usize = 0;
    assert(s@.skip(0) == s@);
    loop
        invariant
            start <= s.len(),
            split_of(s@, c) == texts(r@) + split_of(s@.skip(start as int), c),
        decreases s.len() - start,
    {
        let j = find_from(s, start, c);
        let piece = slice_of(s, start, j);
        let ghost rest = s@.skip(start as int);
        let ghost done = texts(r@);
        proof {
            lemma_first_index(rest, c);
            assert(rest.take(j - start) == s@.subrange(start as int, j as int));
        }
        r.push(piece);
        assert(texts(r@) == done.push(piece@));
        if j >= s.len() {
            assert(rest.take(rest.len() as int) == rest);
            return r;
        }
        assert(rest.skip(j - start + 1) == s@.skip(j + 1));
        start = j + 1;
    }
}

/// The texts of `parts` in one text, with `sep` between each two.
pub open spec fn join_of(parts: Seq<Seq<char>>, sep: Seq<char>) -> Seq<char>
    decreases parts.len(),
{
    if parts.len() == 0 {
        Seq::empty()
    } else if parts.len() == 1 {
        parts[0]
    } else {
        join_of(parts.drop_last(), sep) + sep + parts.last()
    }
}

/// The views of a sequence of vectors of characters.
pub open spec fn texts(parts: Seq<Vec<char>>) -> Seq<Seq<char>> {
    parts.map_values(|p: Vec<char>| p@)
}

/// The views of a sequence of strings.
pub open spec fn strings(parts: Seq<String>) -> Seq<Seq<char>> {
    parts.map_values(|p: String| p@)
}

/// Appends `piece` to `out`, after `sep` unless `piece` is the first.
pub fn push_joined(out: &mut Vec<char>, first: bool, sep: &str, piece: &Vec<char>)
    ensures
        final(out)@ == if first {
            old(out)@ + piece@
        } else {
            old(out)@ + sep@ + piece@
        },
{
    if !first {
        push_str(out, sep);
    }
    push_all(out, piece);
}

/// The texts of `parts` in one text, with `sep` between each two.
pub fn join(parts: &Vec<Vec<char>>, sep: &str) -> (r: Vec<char>)
    ensures
        r@ == join_of(texts(parts@), sep@),
{
    let mut r: Vec<char> = Vec::new();
    let mut i: usize = 0;
    while i < parts.len()
        invariant
            i <= parts.len(),
            r@ == join_of(texts(parts@).take(i as int), sep@),
        decreases parts.len() - i,
    {
        let ghost before = texts(parts@).take(i as int);
        let ghost after = texts(parts@).take(i + 1);
        assert(after.drop_last() == before);
        assert(after.last() == parts@[i as int]@);
        push_joined(&mut r, i == 0, sep, &parts[i]);
        assert(before.len() == 1 ==> join_of(before, sep@) == before[0]);
        i += 1;
    }
    assert(texts(parts@).take(parts.len() as int) == texts(parts@));
    r
}

/// The texts of `parts` in one text, with `sep` between each two.
pub fn join_strings(parts: &Vec<String>, sep: &str) -> (r: Vec<char>)
    ensures
        r@ == join_of(strings(parts@), sep@),
{
    let mut r: Vec<char> = Vec::new();
    let mut i: usize = 0;
    while i < parts.len()
        invariant
            i <= parts.len(),
            r@ == join_of(strings(parts@).take(i as int), sep@),
        decreases parts.len() - i,
    {
        let ghost before = strings(parts@).take(i as int);
        let ghost after = strings(parts@).take(i + 1);
        assert(after.drop_last() == before);
        assert(after.last() == parts@[i as int]@);
        let piece = chars_of(parts[i].as_str());
        push_joined(&mut r, i == 0, sep, &piece);
        i += 1;
    }
    assert(strings(parts@).take(parts.len() as int) == strings(parts@));
    r
}

/// The character of a decimal digit.
pub open spec fn digit_char(d: nat) -> char
    recommends
        d < 10,
{
    ((48 + d) as u8) as char
}

/// The decimal numeral of `n`, without sign or leading zeros.
pub open spec fn decimal(n: nat) -> Seq<char>
    decreases n,
{
    if n < 10 {
        seq![digit_char(n)]
    } else {
        decimal(n / 10).push(digit_char(n % 10))
    }
}

/// Appends the decimal numeral of `n` to `out`.
pub fn push_decimal(out: &mut Vec<char>, n: u64)
    ensures
        final(out)@ == old(out)@ + decimal(n as nat),
    decreases n,
{
    if n >= 10 {
        push_decimal(out, n / 10);
    }
    let d: u8 = (n % 10) as u8;
    out.push((48 + d) as char);
}

} // verus!
