//! From what a model answered to a name that a file can bear, and what to do
//! when an attempt gave none.

use vstd::prelude::*;
use crate::paths::{extension, extension_of};
use crate::text::{
    chars_of, ends_with, lemma_lead, lemma_trail, opt_str, opt_text, push_all, push_str, slice_of,
    string_of, to_unicode_lower, trim, trim_end, trim_end_of, trim_of, trim_start_of, unicode_lower,
    CharClass,
};

verus! {

/// The characters that no file name may hold.
pub open spec fn illegal(c: char) -> bool {
    c == '/' || c == '\\' || c == ':' || c == '*' || c == '?' || c == '"' || c == '<' || c == '>'
        || c == '|'
}

/// `s` with a hyphen in place of each illegal character.
pub open spec fn legalized(s: Seq<char>) -> Seq<char> {
    s.map_values(
        |c: char|
            if illegal(c) {
                '-'
            } else {
                c
            },
    )
}

/// The answer of a model made legal: white space trimmed, then surrounding
/// double quotes, then surrounding single quotes; each illegal character
/// replaced by a hyphen; white space trimmed again.
pub open spec fn sanitized(raw: Seq<char>) -> Seq<char> {
    trim_of(
        legalized(
            trim_of(
                trim_of(trim_of(raw, CharClass::Space), CharClass::One('"')),
                CharClass::One('\''),
            ),
        ),
        CharClass::Space,
    )
}

/// Whether `name` ends with `ext` when case is ignored.
pub open spec fn ends_with_ext(name: Seq<char>, ext: Seq<char>) -> bool {
    unicode_lower(ext).is_suffix_of(unicode_lower(name))
}

/// `name` without its last characters, as many as `ext` has, and without the
/// dots and hyphens that then stand at its end.
pub open spec fn without_ext(name: Seq<char>, ext: Seq<char>) -> Seq<char> {
    let keep = if name.len() >= ext.len() {
        name.len() - ext.len()
    } else {
        0
    };
    trim_end_of(name.take(keep), CharClass::Either('.', '-'))
}

/// The file name that the answer `raw` stands for. Where the file's own
/// extension `ext` is given and the sanitized answer ends with it, case
/// ignored, the extension is taken off.
pub open spec fn clean_name(raw: Seq<char>, ext: Option<Seq<char>>) -> Seq<char> {
    let name = sanitized(raw);
    match ext {
        Some(e) => if ends_with_ext(name, e) {
            without_ext(name, e)
        } else {
            name
        },
        None => name,
    }
}

/// Whether a text holds no illegal character.
pub open spec fn legal(s: Seq<char>) -> bool {
    forall|i: int| 0 <= i < s.len() ==> !illegal(#[trigger] s[i])
}

/// Trimming keeps a legal text legal.
proof fn lemma_trim_legal(s: Seq<char>, k: CharClass)
    requires
        legal(s),
    ensures
        legal(trim_of(s, k)),
        legal(trim_end_of(s, k)),
{
    lemma_lead(s, k);
    lemma_trail(s, k);
    lemma_trail(trim_start_of(s, k), k);
}

/// Whatever the model answered and whatever the extension, the cleaned name
/// holds none of `/ \ : * ? " < > |`.
pub proof fn lemma_clean_name_is_legal(raw: Seq<char>, ext: Option<Seq<char>>)
    ensures
        legal(clean_name(raw, ext)),
{
    let inner = trim_of(
        trim_of(trim_of(raw, CharClass::Space), CharClass::One('"')),
        CharClass::One('\''),
    );
    assert(legal(legalized(inner)));
    lemma_trim_legal(legalized(inner), CharClass::Space);
    let name = sanitized(raw);
    if ext is Some {
        let e = ext->0;
        let keep = if name.len() >= e.len() {
            name.len() - e.len()
        } else {
            0
        };
        assert(legal(name.take(keep)));
        lemma_trim_legal(name.take(keep), CharClass::Either('.', '-'));
    }
}

/// Where the sanitized answer ends with the extension, case ignored, the
/// extension is taken off once: the cleaned name is a start of the
/// sanitized answer that leaves out at least as many characters as the
/// extension has, and it ends with neither a dot nor a hyphen. An answer
/// that repeats the extension keeps the first of the two.
pub proof fn lemma_clean_name_takes_extension_off(raw: Seq<char>, ext: Seq<char>)
    requires
        ends_with_ext(sanitized(raw), ext),
    ensures
        clean_name(raw, Some(ext)).is_prefix_of(sanitized(raw)),
        sanitized(raw).len() >= ext.len() ==> clean_name(raw, Some(ext)).len() + ext.len()
            <= sanitized(raw).len(),
        clean_name(raw, Some(ext)).len() > 0 ==> clean_name(raw, Some(ext)).last() != '.'
            && clean_name(raw, Some(ext)).last() != '-',
{
    let name = sanitized(raw);
    let keep = if name.len() >= ext.len() {
        name.len() - ext.len()
    } else {
        0
    };
    lemma_trail(name.take(keep), CharClass::Either('.', '-'));
}

/// `s` with a hyphen in place of each illegal character.
pub fn legalize(s: &Vec<char>) -> (r: Vec<char>)
    ensures
        r@ == legalized(s@),
{
    let mut r: Vec<char> = Vec::new();
    let mut i: usize = 0;
    while i < s.len()
        invariant
            i <= s.len(),
            r@ == legalized(s@.take(i as int)),
        decreases s.len() - i,
    {
        let c = s[i];
        let d = if c == '/' || c == '\\' || c == ':' || c == '*' || c == '?' || c == '"' || c
            == '<' || c == '>' || c == '|' {
            '-'
        } else {
            c
        };
        r.push(d);
        assert(legalized(s@.take(i + 1)) == legalized(s@.take(i as int)).push(d));
        i += 1;
    }
    assert(s@.take(s.len() as int) == s@);
    r
}

/// The sanitized answer `name` with the extension `ext` taken off, given
/// the lower-case forms of both: where the lower-case name ends with the
/// lower-case extension, the name loses as many characters as the extension
/// has and the dots and hyphens that then stand at its end; else it stays
/// as it is.
pub fn take_extension_off(
    name: &Vec<char>,
    lower: &Vec<char>,
    ext: &Vec<char>,
    ext_lower: &Vec<char>,
) -> (r: Vec<char>)
    ensures
        r@ == if ext_lower@.is_suffix_of(lower@) {
            without_ext(name@, ext@)
        } else {
            name@
        },
{
    if ends_with(lower, ext_lower) {
        let keep = if name.len() >= ext.len() {
            name.len() - ext.len()
        } else {
            0
        };
        let cut = slice_of(name, 0, keep);
        trim_end(&cut, CharClass::Either('.', '-'))
    } else {
        slice_of(name, 0, name.len())
    }
}

/// Turns the answer of a model into a file name: see `clean_name`. An empty
/// result means that the model gave no usable name.
pub fn clean_filename(raw: &str, ext: Option<&str>) -> (r: String)
    ensures
        r@ == clean_name(raw@, opt_str(ext)),
        legal(r@),
{
    proof {
        lemma_clean_name_is_legal(raw@, opt_str(ext));
    }
    let chars = chars_of(raw);
    let unspaced = trim(&chars, CharClass::Space);
    let unquoted = trim(&unspaced, CharClass::One('"'));
    let bare = trim(&unquoted, CharClass::One('\''));
    let replaced = legalize(&bare);
    let name = trim(&replaced, CharClass::Space);
    match ext {
        None => string_of(&name),
        Some(e) => {
            let ext_chars = chars_of(e);
            let lower = to_unicode_lower(&name);
            let ext_lower = to_unicode_lower(&ext_chars);
            let out = take_extension_off(&name, &lower, &ext_chars, &ext_lower);
            string_of(&out)
        },
    }
}

/// The extension of the file `name` with its dot, as a model may have
/// repeated it; nothing where the name has no extension.
pub open spec fn dotted_extension_of(name: Seq<char>) -> Option<Seq<char>> {
    match extension_of(name) {
        Some(e) => Some("."@ + e),
        None => None,
    }
}

/// The extension of the file `name` with its dot.
pub fn dotted_extension(name: &str) -> (r: Option<String>)
    ensures
        opt_text(r) == dotted_extension_of(name@),
{
    match extension(name) {
        Some(e) => {
            let mut out = chars_of(".");
            push_str(&mut out, e.as_str());
            Some(string_of(&out))
        },
        None => None,
    }
}

/// How many times a name is asked for before the call fails.
pub const MAX_ATTEMPTS: u32 = 3;

/// The seconds to wait between two attempts.
pub const RETRY_DELAY_SECS: u64 = 1;

/// Which kind of model is asked.
#[derive(Clone, Copy, Debug, PartialEq, Eq, Structural)]
pub enum Engine {
    /// A language model, given extracted text.
    Text,
    /// A vision model, given the image.
    Vision,
}

/// The error of an attempt whose answer cleaned to nothing.
pub open spec fn empty_name_error(engine: Engine) -> Seq<char> {
    match engine {
        Engine::Text => "AI 返回了空文件名"@,
        Engine::Vision => "VLM 返回了空文件名"@,
    }
}

/// What stands before the last error once every attempt has failed.
pub open spec fn exhausted_prefix(engine: Engine) -> Seq<char> {
    match engine {
        Engine::Text => "重试 3 次后仍失败: "@,
        Engine::Vision => "VLM 重试 3 次后仍失败: "@,
    }
}

/// What to do after an attempt.
#[derive(Debug, PartialEq, Eq)]
pub enum RetryStep {
    /// The attempt gave a name: the call is over.
    Done(String),
    /// The attempt failed: wait this many seconds and ask again.
    Again(u64),
    /// The last attempt failed: the call fails with this message.
    GiveUp(String),
}

/// The view of a step.
pub enum RetryStepView {
    Done(Seq<char>),
    Again(nat),
    GiveUp(Seq<char>),
}

impl View for RetryStep {
    type V = RetryStepView;

    open spec fn view(&self) -> RetryStepView {
        match self {
            RetryStep::Done(s) => RetryStepView::Done(s@),
            RetryStep::Again(n) => RetryStepView::Again(*n as nat),
            RetryStep::GiveUp(s) => RetryStepView::GiveUp(s@),
        }
    }
}

/// The view of the outcome of an attempt: the model's raw answer, or the
/// message of the failure (no connection, a refusal, a malformed answer).
pub open spec fn attempt_view(outcome: Result<String, String>) -> Result<Seq<char>, Seq<char>> {
    match outcome {
        Ok(s) => Ok(s@),
        Err(e) => Err(e@),
    }
}

/// What follows an attempt, the `made`-th of a call (counted from one), that
/// ended in `outcome`. A raw answer that cleans to a name ends the call.
/// Anything else is a failure; its error is the attempt's message, or that of
/// an empty name. After a failure the call waits and asks again, until the
/// failure of attempt `MAX_ATTEMPTS` ends it with that attempt's error.
pub open spec fn step_after(
    engine: Engine,
    made: nat,
    outcome: Result<Seq<char>, Seq<char>>,
    ext: Option<Seq<char>>,
) -> RetryStepView {
    let failure = match outcome {
        Ok(raw) => if clean_name(raw, ext).len() > 0 {
            None
        } else {
            Some(empty_name_error(engine))
        },
        Err(e) => Some(e),
    };
    match failure {
        None => RetryStepView::Done(clean_name(outcome->Ok_0, ext)),
        Some(e) => if made < MAX_ATTEMPTS {
            RetryStepView::Again(RETRY_DELAY_SECS as nat)
        } else {
            RetryStepView::GiveUp(exhausted_prefix(engine) + e)
        },
    }
}

/// The attempts of one call for a name.
#[derive(Debug, PartialEq, Eq)]
pub struct Retry {
    engine: Engine,
    made: u32,
}

impl Retry {
    /// Which kind of model the call asks.
    pub closed spec fn engine(&self) -> Engine {
        self.engine
    }

    /// How many attempts have ended.
    pub closed spec fn made(&self) -> nat {
        self.made as nat
    }

    /// A call of which no attempt has been made.
    pub fn new(engine: Engine) -> (r: Retry)
        ensures
            r.engine() == engine,
            r.made() == 0,
    {
        Retry { engine, made: 0 }
    }

    /// Whether another attempt may be made.
    pub fn may_attempt(&self) -> (b: bool)
        ensures
            b == (self.made() < MAX_ATTEMPTS),
    {
        self.made < MAX_ATTEMPTS
    }

    /// Records the end of an attempt and says what follows. `ext` is the
    /// dotted extension of the file that is being named, if it has one. An
    /// attempt beyond the last counts as the last.
    pub fn record(&mut self, outcome: Result<String, String>, ext: Option<&str>) -> (step:
        RetryStep)
        ensures
            final(self).engine() == old(self).engine(),
            final(self).made() == if old(self).made() < MAX_ATTEMPTS {
                old(self).made() + 1
            } else {
                old(self).made()
            },
            old(self).made() < MAX_ATTEMPTS ==> step@ == step_after(
                old(self).engine(),
                old(self).made() + 1,
                attempt_view(outcome),
                opt_str(ext),
            ),
            old(self).made() >= MAX_ATTEMPTS ==> step@ == step_after(
                old(self).engine(),
                old(self).made(),
                attempt_view(outcome),
                opt_str(ext),
            ),
            !(step is Again) || final(self).made() < MAX_ATTEMPTS,
    {
        if self.made < MAX_ATTEMPTS {
            self.made = self.made + 1;
        }
        let error = match outcome {
            Ok(raw) => {
                let cleaned = clean_filename(raw.as_str(), ext);
                if cleaned.as_str().unicode_len() > 0 {
                    return RetryStep::Done(cleaned);
                }
                match self.engine {
                    Engine::Text => chars_of("AI 返回了空文件名"),
                    Engine::Vision => chars_of("VLM 返回了空文件名"),
                }
            },
            Err(e) => chars_of(e.as_str()),
        };
        if self.made < MAX_ATTEMPTS {
            RetryStep::Again(RETRY_DELAY_SECS)
        } else {
            let mut message = match self.engine {
                Engine::Text => chars_of("重试 3 次后仍失败: "),
                Engine::Vision => chars_of("VLM 重试 3 次后仍失败: "),
            };
            push_all(&mut message, &error);
            RetryStep::GiveUp(string_of(&message))
        }
    }
}

/// A call makes at most `MAX_ATTEMPTS` attempts: the failure of the last one
/// never asks for another, and before it a failure always does.
pub proof fn lemma_retry_is_bounded(
    engine: Engine,
    made: nat,
    outcome: Result<Seq<char>, Seq<char>>,
    ext: Option<Seq<char>>,
)
    requires
        1 <= made <= MAX_ATTEMPTS,
    ensures
        step_after(engine, made, outcome, ext) is Again <==> made < MAX_ATTEMPTS && !(outcome is Ok
            && clean_name(outcome->Ok_0, ext).len() > 0),
        step_after(engine, made, outcome, ext) is Done <==> outcome is Ok && clean_name(
            outcome->Ok_0,
            ext,
        ).len() > 0,
{
}

} // verus!
