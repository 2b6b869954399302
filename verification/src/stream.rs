//! Streamed answers: from chunks of bytes to the text so far.
//!
//! A provider streams its answer in lines. The local provider sends one JSON
//! object per line, each with a piece of the answer. The hosted provider
//! sends server-sent events: lines `data: <object>`, and `data: [DONE]` at the
//! end. The caller reads the chunks off the network and feeds them in;
//! a decoder cuts them into lines, reads the pieces and keeps the text so
//! far. Each piece gives one partial result.

use vstd::prelude::*;
use vstd::utf8::{decode_utf8, valid_utf8};
use crate::json::{json_text, text_at};
use crate::text::{
    chars_of, find_from, first_index, lemma_first_index, lemma_first_index_is, opt_text,
    push_str, same_chars, slice_of, starts_with, string_of, strings, trim, trim_of, CharClass,
};

verus! {

/// What `String::from_utf8_lossy` makes of `bytes`: the text that they
/// encode, with U+FFFD in place of what is no valid UTF-8.
pub uninterp spec fn utf8_lossy(bytes: Seq<u8>) -> Seq<char>;

/// `String::from_utf8_lossy` of the standard library. Valid UTF-8 is decoded
/// as it is; of other bytes only this is claimed, that the text depends on
/// them alone.
#[verifier::external_body]
pub(crate) fn lossy_text(bytes: &[u8]) -> (r: String)
    ensures
        r@ == utf8_lossy(bytes@),
        valid_utf8(bytes@) ==> r@ == decode_utf8(bytes@),
{
    String::from_utf8_lossy(bytes).into_owned()
}

/// The index of the first line feed in `b`; the length of `b` where there is
/// none.
pub open spec fn first_newline(b: Seq<u8>) -> int
    decreases b.len(),
{
    if b.len() == 0 {
        0
    } else if b[0] == 10 {
        0
    } else {
        1 + first_newline(b.drop_first())
    }
}

/// An index at which a line feed stands, with none before it, is the first.
proof fn lemma_first_newline_is(b: Seq<u8>, j: int)
    requires
        0 <= j <= b.len(),
        j < b.len() ==> b[j] == 10,
        forall|i: int| 0 <= i < j ==> #[trigger] b[i] != 10,
    ensures
        first_newline(b) == j,
    decreases b.len(),
{
    if b.len() > 0 && j > 0 {
        let t = b.drop_first();
        assert(b[0] != 10);
        assert forall|i: int| 0 <= i < j - 1 implies #[trigger] t[i] != 10 by {
            assert(t[i] == b[i + 1]);
        }
        lemma_first_newline_is(t, j - 1);
    }
}

/// The index in `b` of the first line feed at or after `from`.
fn find_newline(b: &Vec<u8>, from: usize) -> (j: usize)
    requires
        from <= b.len(),
    ensures
        from <= j <= b.len(),
        j - from == first_newline(b@.skip(from as int)),
{
    let mut j: usize = from;
    while j < b.len() && b[j] != 10
        invariant
            from <= j <= b.len(),
            forall|i: int| from <= i < j ==> #[trigger] b@[i] != 10,
        decreases b.len() - j,
    {
        j += 1;
    }
    proof {
        lemma_first_newline_is(b@.skip(from as int), j - from);
    }
    j
}

/// The bytes of `b` from `from` up to, not including, `to`.
fn bytes_of(b: &Vec<u8>, from: usize, to: usize) -> (r: Vec<u8>)
    requires
        from <= to <= b.len(),
    ensures
        r@ == b@.subrange(from as int, to as int),
{
    let mut r: Vec<u8> = Vec::new();
    let mut i: usize = from;
    while i < to
        invariant
            from <= i <= to <= b.len(),
            r@ == b@.subrange(from as int, i as int),
        decreases to - i,
    {
        r.push(b[i]);
        i += 1;
    }
    r
}

/// Where the decoder of the local stream stands: the bytes that no line has
/// taken yet, the text so far, and the partial results given.
pub struct Flow {
    pub pending: Seq<u8>,
    pub text: Seq<char>,
    pub partials: Seq<Seq<char>>,
}

/// Where the decoder of the hosted stream stands: the characters that no
/// line has taken yet, the text so far, the partial results given, and
/// whether the line that ends the stream has been read.
pub struct SseFlow {
    pub pending: Seq<char>,
    pub text: Seq<char>,
    pub partials: Seq<Seq<char>>,
    pub done: bool,
}

/// The piece of the answer that a line of the local provider carries: the
/// string at `/message/content` of the line, trimmed, read as a document.
/// A blank line carries none.
pub open spec fn ndjson_token(line: Seq<u8>) -> Option<Seq<char>> {
    let t = trim_of(utf8_lossy(line), CharClass::Space);
    if t.len() == 0 {
        None
    } else {
        json_text(t, "/message/content"@)
    }
}

/// Takes every whole line out of the pending bytes. A line that carries a
/// piece extends the text and gives the text so far as a partial result.
pub open spec fn ndjson_drain(f: Flow) -> Flow
    decreases f.pending.len(),
{
    let i = first_newline(f.pending);
    if 0 <= i < f.pending.len() {
        let rest = f.pending.skip(i + 1);
        match ndjson_token(f.pending.take(i + 1)) {
            Some(piece) => ndjson_drain(
                Flow {
                    pending: rest,
                    text: f.text + piece,
                    partials: f.partials.push(f.text + piece),
                },
            ),
            None => ndjson_drain(Flow { pending: rest, ..f }),
        }
    } else {
        f
    }
}

/// The local stream after it took in `chunk`, with the partial results that
/// the chunk gave.
pub open spec fn ndjson_fed(pending: Seq<u8>, text: Seq<char>, chunk: Seq<u8>) -> Flow {
    ndjson_drain(Flow { pending: pending + chunk, text, partials: Seq::empty() })
}

/// The final text of a stream of the local provider: what follows the last
/// line feed counts as a last line, which gives no partial result.
pub open spec fn ndjson_end(pending: Seq<u8>, text: Seq<char>) -> Seq<char> {
    if pending.len() == 0 {
        text
    } else {
        match ndjson_token(pending) {
            Some(piece) => text + piece,
            None => text,
        }
    }
}

/// A decoder for the stream of the local provider.
#[derive(Debug, PartialEq, Eq)]
pub struct NdjsonStream {
    pending: Vec<u8>,
    text: Vec<char>,
}

/// Reads the piece that a line of the local provider carries.
fn read_ndjson_line(line: &Vec<u8>) -> (r: Option<String>)
    ensures
        opt_text(r) == ndjson_token(line@),
{
    let decoded = lossy_text(line.as_slice());
    let chars = chars_of(decoded.as_str());
    let trimmed = trim(&chars, CharClass::Space);
    if trimmed.len() == 0 {
        None
    } else {
        let doc = string_of(&trimmed);
        text_at(doc.as_str(), "/message/content")
    }
}

impl NdjsonStream {
    /// The bytes that no line has taken yet.
    pub closed spec fn pending(&self) -> Seq<u8> {
        self.pending@
    }

    /// The text so far.
    pub closed spec fn text(&self) -> Seq<char> {
        self.text@
    }

    /// A decoder that has read nothing.
    pub fn new() -> (r: NdjsonStream)
        ensures
            r.pending() == Seq::<u8>::empty(),
            r.text() == Seq::<char>::empty(),
    {
        NdjsonStream { pending: Vec::new(), text: Vec::new() }
    }

    /// Takes in a chunk and gives the partial results of the lines that it
    /// completes, in order.
    pub fn feed(&mut self, chunk: &[u8]) -> (partials: Vec<String>)
        ensures
            ({
                let f = ndjson_fed(old(self).pending(), old(self).text(), chunk@);
                &&& final(self).pending() == f.pending
                &&& final(self).text() == f.text
                &&& strings(partials@) == f.partials
            }),
    {
        let mut all: Vec<u8> = bytes_of(&self.pending, 0, self.pending.len());
        let mut k: usize = 0;
        while k < chunk.len()
            invariant
                k <= chunk.len(),
                all@ == self.pending@ + chunk@.take(k as int),
            decreases chunk.len() - k,
        {
            all.push(chunk[k]);
            k += 1;
        }
        assert(chunk@.take(chunk.len() as int) == chunk@);
        let ghost goal = ndjson_drain(
            Flow { pending: all@, text: self.text@, partials: Seq::empty() },
        );
        let mut partials: Vec<String> = Vec::new();
        let mut start: usize = 0;
        assert(all@.skip(0) == all@);
        assert(strings(partials@) == Seq::<Seq<char>>::empty());
        loop
            invariant_except_break
                goal == ndjson_drain(
                    Flow {
                        pending: all@.skip(start as int),
                        text: self.text@,
                        partials: strings(partials@),
                    },
                ),
            invariant
                start <= all.len(),
            ensures
                goal == (Flow {
                    pending: all@.skip(start as int),
                    text: self.text@,
                    partials: strings(partials@),
                }),
            decreases all.len() - start,
        {
            let j = find_newline(&all, start);
            if j >= all.len() {
                break;
            }
            let ghost rest = all@.skip(start as int);
            let ghost emitted = strings(partials@);
            let line = bytes_of(&all, start, j + 1);
            assert(line@ == rest.take(j - start + 1));
            assert(rest.skip(j - start + 1) == all@.skip(j + 1));
            match read_ndjson_line(&line) {
                Some(piece) => {
                    push_str(&mut self.text, piece.as_str());
                    let so_far = string_of(&self.text);
                    partials.push(so_far);
                    assert(strings(partials@) == emitted.push(self.text@));
                },
                None => {},
            }
            start = j + 1;
        }
        self.pending = bytes_of(&all, start, all.len());
        assert(self.pending@ == all@.skip(start as int));
        partials
    }

    /// The final text, once the stream has ended.
    pub fn finish(self) -> (r: String)
        ensures
            r@ == ndjson_end(self.pending(), self.text()),
    {
        let mut text = self.text;
        if self.pending.len() > 0 {
            match read_ndjson_line(&self.pending) {
                Some(piece) => {
                    push_str(&mut text, piece.as_str());
                },
                None => {},
            }
        }
        string_of(&text)
    }
}

/// What a line of the hosted provider is.
pub enum SseLine {
    /// The line carries nothing: it is blank, is no `data: ` line, or its
    /// object holds no piece.
    Skip,
    /// The line is `data: [DONE]`.
    Done,
    /// The line carries a piece of the answer.
    Piece(Seq<char>),
}

/// What a line of the hosted provider is: trimmed, it is `data: [DONE]`, or
/// it is `data: ` before an object whose string at
/// `/choices/0/delta/content` is the piece (if it has one), or it is
/// nothing.
pub open spec fn sse_line(line: Seq<char>) -> SseLine {
    let t = trim_of(line, CharClass::Space);
    if t.len() == 0 {
        SseLine::Skip
    } else if t == "data: [DONE]"@ {
        SseLine::Done
    } else if "data: "@.is_prefix_of(t) {
        match json_text(t.skip("data: "@.len() as int), "/choices/0/delta/content"@) {
            Some(piece) => SseLine::Piece(piece),
            None => SseLine::Skip,
        }
    } else {
        SseLine::Skip
    }
}

/// Takes whole lines out of the pending characters until the stream ends.
/// A line that carries a piece extends the text and gives the text so far
/// as a partial result. The line `data: [DONE]` ends the stream: what is
/// pending after it is dropped, and nothing is read any more.
pub open spec fn sse_drain(f: SseFlow) -> SseFlow
    decreases f.pending.len(),
{
    let i = first_index(f.pending, '\n');
    if !f.done && 0 <= i < f.pending.len() {
        let rest = f.pending.skip(i + 1);
        match sse_line(f.pending.take(i + 1)) {
            SseLine::Done => SseFlow { pending: Seq::empty(), done: true, ..f },
            SseLine::Piece(piece) => sse_drain(
                SseFlow {
                    pending: rest,
                    text: f.text + piece,
                    partials: f.partials.push(f.text + piece),
                    ..f
                },
            ),
            SseLine::Skip => sse_drain(SseFlow { pending: rest, ..f }),
        }
    } else {
        f
    }
}

/// The hosted stream after it took in `chunk`, with the partial results
/// that the chunk gave. The chunk is decoded by itself. A stream that has
/// ended takes nothing in: it stays as it is and gives no partial result.
pub open spec fn sse_fed(pending: Seq<char>, text: Seq<char>, done: bool, chunk: Seq<u8>) -> SseFlow {
    if done {
        SseFlow { pending, text, partials: Seq::empty(), done }
    } else {
        sse_drain(
            SseFlow { pending: pending + utf8_lossy(chunk), text, partials: Seq::empty(), done },
        )
    }
}

/// Once the hosted stream has ended nothing changes it: it stays ended, and
/// whatever is fed to it leaves the text as it is and gives no partial
/// result.
pub proof fn lemma_sse_ends_at_the_end_mark(
    pending: Seq<char>,
    text: Seq<char>,
    done: bool,
    first: Seq<u8>,
    second: Seq<u8>,
)
    requires
        sse_fed(pending, text, done, first).done,
    ensures
        ({
            let f = sse_fed(pending, text, done, first);
            let g = sse_fed(f.pending, f.text, f.done, second);
            g.done && g.text == f.text && g.pending == f.pending && g.partials.len() == 0
        }),
{
}

/// The first line feed of a text that has one is also the first of the
/// text with more after it.
proof fn lemma_first_index_stays(a: Seq<char>, b: Seq<char>, c: char)
    requires
        0 <= first_index(a, c) < a.len(),
    ensures
        first_index(a + b, c) == first_index(a, c),
    decreases a.len(),
{
    if a[0] != c {
        assert((a + b).drop_first() == a.drop_first() + b);
        lemma_first_index(a.drop_first(), c);
        lemma_first_index_stays(a.drop_first(), b, c);
    }
}

/// What the hosted stream gives does not depend on where its text is cut:
/// taking in some characters and then more gives what taking them in at
/// once gives, and if the first of them end the stream the rest count for
/// nothing.
pub proof fn lemma_sse_chunking(f: SseFlow, more: Seq<char>)
    requires
        !f.done,
    ensures
        sse_drain(SseFlow { pending: f.pending + more, ..f }) == if sse_drain(f).done {
            sse_drain(f)
        } else {
            sse_drain(SseFlow { pending: sse_drain(f).pending + more, ..sse_drain(f) })
        },
    decreases f.pending.len(),
{
    let i = first_index(f.pending, '\n');
    if 0 <= i < f.pending.len() {
        lemma_first_index_stays(f.pending, more, '\n');
        let whole = f.pending + more;
        let rest = f.pending.skip(i + 1);
        assert(whole.take(i + 1) == f.pending.take(i + 1));
        assert(whole.skip(i + 1) == rest + more);
        match sse_line(f.pending.take(i + 1)) {
            SseLine::Done => {},
            SseLine::Piece(piece) => {
                lemma_sse_chunking(
                    SseFlow {
                        pending: rest,
                        text: f.text + piece,
                        partials: f.partials.push(f.text + piece),
                        ..f
                    },
                    more,
                );
            },
            SseLine::Skip => {
                lemma_sse_chunking(SseFlow { pending: rest, ..f }, more);
            },
        }
    }
}

/// Draining never reopens a stream, and a stream that it ends has nothing
/// pending.
pub proof fn lemma_sse_end_drops_the_rest(f: SseFlow)
    ensures
        f.done ==> sse_drain(f) == f,
        !f.done && sse_drain(f).done ==> sse_drain(f).pending.len() == 0,
    decreases f.pending.len(),
{
    let i = first_index(f.pending, '\n');
    if !f.done && 0 <= i < f.pending.len() {
        let rest = f.pending.skip(i + 1);
        match sse_line(f.pending.take(i + 1)) {
            SseLine::Done => {},
            SseLine::Piece(piece) => {
                lemma_sse_end_drops_the_rest(
                    SseFlow {
                        pending: rest,
                        text: f.text + piece,
                        partials: f.partials.push(f.text + piece),
                        ..f
                    },
                );
            },
            SseLine::Skip => {
                lemma_sse_end_drops_the_rest(SseFlow { pending: rest, ..f });
            },
        }
    }
}

/// What reading a line of the hosted provider gave.
enum SseRead {
    Skip,
    Done,
    Piece(String),
}

/// The view of what reading a line gave.
spec fn sse_read_view(r: SseRead) -> SseLine {
    match r {
        SseRead::Skip => SseLine::Skip,
        SseRead::Done => SseLine::Done,
        SseRead::Piece(s) => SseLine::Piece(s@),
    }
}

/// Reads a line of the hosted provider.
fn read_sse_line(line: &Vec<char>) -> (r: SseRead)
    ensures
        sse_read_view(r) == sse_line(line@),
{
    let trimmed = trim(line, CharClass::Space);
    if trimmed.len() == 0 {
        return SseRead::Skip;
    }
    let done = chars_of("data: [DONE]");
    if same_chars(&trimmed, &done) {
        return SseRead::Done;
    }
    let head = chars_of("data: ");
    if !starts_with(&trimmed, &head) {
        return SseRead::Skip;
    }
    let data = slice_of(&trimmed, head.len(), trimmed.len());
    assert(data@ == trimmed@.skip("data: "@.len() as int));
    let doc = string_of(&data);
    match text_at(doc.as_str(), "/choices/0/delta/content") {
        Some(piece) => SseRead::Piece(piece),
        None => SseRead::Skip,
    }
}

/// A decoder for the stream of the hosted provider.
#[derive(Debug, PartialEq, Eq)]
pub struct SseStream {
    pending: Vec<char>,
    text: Vec<char>,
    done: bool,
}

impl SseStream {
    /// The characters that no line has taken yet.
    pub closed spec fn pending(&self) -> Seq<char> {
        self.pending@
    }

    /// The text so far.
    pub closed spec fn text(&self) -> Seq<char> {
        self.text@
    }

    /// Whether the line that ends the stream has been read.
    pub closed spec fn done(&self) -> bool {
        self.done
    }

    /// A decoder that has read nothing.
    pub fn new() -> (r: SseStream)
        ensures
            r.pending() == Seq::<char>::empty(),
            r.text() == Seq::<char>::empty(),
            !r.done(),
    {
        SseStream { pending: Vec::new(), text: Vec::new(), done: false }
    }

    /// Whether the stream has ended: the caller need not read on.
    pub fn is_done(&self) -> (r: bool)
        ensures
            r == self.done(),
    {
        self.done
    }

    /// Takes in a chunk, decoded by itself, and gives the partial results of
    /// the lines that it completes, in order. A stream that has ended takes
    /// nothing in.
    pub fn feed(&mut self, chunk: &[u8]) -> (partials: Vec<String>)
        ensures
            ({
                let f = sse_fed(old(self).pending(), old(self).text(), old(self).done(), chunk@);
                &&& final(self).pending() == f.pending
                &&& final(self).text() == f.text
                &&& final(self).done() == f.done
                &&& strings(partials@) == f.partials
            }),
    {
        let mut partials: Vec<String> = Vec::new();
        assert(strings(partials@) == Seq::<Seq<char>>::empty());
        if self.done {
            return partials;
        }
        let decoded = lossy_text(chunk);
        let mut all: Vec<char> = slice_of(&self.pending, 0, self.pending.len());
        assert(all@ == self.pending@);
        push_str(&mut all, decoded.as_str());
        let ghost goal = sse_drain(
            SseFlow { pending: all@, text: self.text@, partials: Seq::empty(), done: false },
        );
        let mut start: usize = 0;
        let mut done = false;
        assert(all@.skip(0) == all@);
        loop
            invariant_except_break
                !done,
                goal == sse_drain(
                    SseFlow {
                        pending: all@.skip(start as int),
                        text: self.text@,
                        partials: strings(partials@),
                        done: false,
                    },
                ),
            invariant
                start <= all.len(),
            ensures
                goal == (SseFlow {
                    pending: all@.skip(start as int),
                    text: self.text@,
                    partials: strings(partials@),
                    done,
                }),
            decreases all.len() - start,
        {
            let j = find_from(&all, start, '\n');
            if j >= all.len() {
                break;
            }
            let ghost rest = all@.skip(start as int);
            let ghost emitted = strings(partials@);
            let line = slice_of(&all, start, j + 1);
            assert(line@ == rest.take(j - start + 1));
            assert(rest.skip(j - start + 1) == all@.skip(j + 1));
            let read = read_sse_line(&line);
            match read {
                SseRead::Done => {
                    start = all.len();
                    done = true;
                    assert(all@.skip(start as int) == Seq::<char>::empty());
                    break;
                },
                SseRead::Piece(piece) => {
                    push_str(&mut self.text, piece.as_str());
                    let so_far = string_of(&self.text);
                    partials.push(so_far);
                    assert(strings(partials@) == emitted.push(self.text@));
                },
                SseRead::Skip => {},
            }
            start = j + 1;
        }
        self.pending = slice_of(&all, start, all.len());
        assert(self.pending@ == all@.skip(start as int));
        self.done = done;
        partials
    }

    /// The final text, once the stream has ended: the text so far.
    pub fn finish(self) -> (r: String)
        ensures
            r@ == self.text(),
    {
        string_of(&self.text)
    }
}

/// The first line feed lies within the bytes, or at their end where there
/// is none.
proof fn lemma_first_newline_bound(b: Seq<u8>)
    ensures
        0 <= first_newline(b) <= b.len(),
    decreases b.len(),
{
    if b.len() > 0 && b[0] != 10 {
        lemma_first_newline_bound(b.drop_first());
    }
}

/// The first line feed of a run of bytes that has one is also the first of
/// the run with more bytes after it.
proof fn lemma_first_newline_stays(a: Seq<u8>, b: Seq<u8>)
    requires
        0 <= first_newline(a) < a.len(),
    ensures
        first_newline(a + b) == first_newline(a),
    decreases a.len(),
{
    if a[0] != 10 {
        assert((a + b).drop_first() == a.drop_first() + b);
        lemma_first_newline_bound(a.drop_first());
        lemma_first_newline_stays(a.drop_first(), b);
    }
}

/// What a stream of the local provider gives does not depend on where it is
/// cut into chunks: taking in some bytes and then more gives the text, the
/// pending bytes and the partial results that taking them in at once gives.
pub proof fn lemma_ndjson_chunking(f: Flow, more: Seq<u8>)
    ensures
        ndjson_drain(Flow { pending: f.pending + more, ..f }) == ndjson_drain(
            Flow { pending: ndjson_drain(f).pending + more, ..ndjson_drain(f) },
        ),
    decreases f.pending.len(),
{
    let i = first_newline(f.pending);
    if 0 <= i < f.pending.len() {
        lemma_first_newline_stays(f.pending, more);
        let whole = f.pending + more;
        let rest = f.pending.skip(i + 1);
        assert(whole.take(i + 1) == f.pending.take(i + 1));
        assert(whole.skip(i + 1) == rest + more);
        match ndjson_token(f.pending.take(i + 1)) {
            Some(piece) => {
                lemma_ndjson_chunking(
                    Flow {
                        pending: rest,
                        text: f.text + piece,
                        partials: f.partials.push(f.text + piece),
                    },
                    more,
                );
            },
            None => {
                lemma_ndjson_chunking(Flow { pending: rest, ..f }, more);
            },
        }
    }
}

/// What one whole line does to the local stream when nothing is pending: a
/// line that carries a piece appends it to the text and gives the text so
/// far as one partial result; any other line changes nothing.
pub proof fn lemma_ndjson_line(f: Flow, line: Seq<u8>)
    requires
        f.pending.len() == 0,
        line.len() > 0,
        line.last() == 10,
        forall|i: int| 0 <= i < line.len() - 1 ==> #[trigger] line[i] != 10,
    ensures
        ndjson_drain(Flow { pending: line, ..f }) == match ndjson_token(line) {
            Some(piece) => Flow {
                pending: Seq::empty(),
                text: f.text + piece,
                partials: f.partials.push(f.text + piece),
            },
            None => Flow { pending: Seq::empty(), ..f },
        },
{
    lemma_first_newline_is(line, line.len() - 1);
    assert(line.take(line.len() as int) == line);
    assert(line.skip(line.len() as int) == Seq::<u8>::empty());
    let after = match ndjson_token(line) {
        Some(piece) => Flow {
            pending: Seq::empty(),
            text: f.text + piece,
            partials: f.partials.push(f.text + piece),
        },
        None => Flow { pending: Seq::empty(), ..f },
    };
    assert(ndjson_drain(after) == after);
}

/// What one whole line does to the hosted stream when it has not ended and
/// nothing is pending: a line that carries a piece appends it to the text
/// and gives the text so far as one partial result; the end mark ends the
/// stream; any other line changes nothing.
pub proof fn lemma_sse_line(f: SseFlow, line: Seq<char>)
    requires
        !f.done,
        f.pending.len() == 0,
        line.len() > 0,
        line.last() == '\n',
        forall|i: int| 0 <= i < line.len() - 1 ==> #[trigger] line[i] != '\n',
    ensures
        sse_drain(SseFlow { pending: line, ..f }) == match sse_line(line) {
            SseLine::Piece(piece) => SseFlow {
                pending: Seq::empty(),
                text: f.text + piece,
                partials: f.partials.push(f.text + piece),
                done: false,
            },
            SseLine::Done => SseFlow { pending: Seq::empty(), done: true, ..f },
            SseLine::Skip => SseFlow { pending: Seq::empty(), ..f },
        },
{
    lemma_first_index_is(line, '\n', line.len() - 1);
    assert(line.take(line.len() as int) == line);
    assert(line.skip(line.len() as int) == Seq::<char>::empty());
    let after = match sse_line(line) {
        SseLine::Piece(piece) => SseFlow {
            pending: Seq::empty(),
            text: f.text + piece,
            partials: f.partials.push(f.text + piece),
            done: false,
        },
        SseLine::Done => SseFlow { pending: Seq::empty(), done: true, ..f },
        SseLine::Skip => SseFlow { pending: Seq::empty(), ..f },
    };
    assert(sse_drain(after) == after);
}

/// Every partial result of a chunk extends the one before it, and the last
/// is the text so far: the text only grows.
pub proof fn lemma_ndjson_text_grows(f: Flow)
    requires
        forall|i: int| 0 <= i < f.partials.len() ==> (#[trigger] f.partials[i]).is_prefix_of(f.text),
    ensures
        f.text.is_prefix_of(ndjson_drain(f).text),
        f.partials.is_prefix_of(ndjson_drain(f).partials),
        forall|i: int|
            0 <= i < ndjson_drain(f).partials.len() ==> (#[trigger] ndjson_drain(
                f,
            ).partials[i]).is_prefix_of(ndjson_drain(f).text),
        ndjson_drain(f).partials.len() > f.partials.len() ==> ndjson_drain(f).partials.last()
            == ndjson_drain(f).text,
    decreases f.pending.len(),
{
    let i = first_newline(f.pending);
    if 0 <= i < f.pending.len() {
        let rest = f.pending.skip(i + 1);
        match ndjson_token(f.pending.take(i + 1)) {
            Some(piece) => {
                let g = Flow {
                    pending: rest,
                    text: f.text + piece,
                    partials: f.partials.push(f.text + piece),
                };
                assert forall|k: int| 0 <= k < g.partials.len() implies (
                #[trigger] g.partials[k]).is_prefix_of(g.text) by {
                    if k < f.partials.len() {
                        assert(g.partials[k] == f.partials[k]);
                        assert(f.partials[k].is_prefix_of(f.text));
                    }
                }
                lemma_ndjson_text_grows(g);
                assert(f.text.is_prefix_of(g.text));
                assert(f.partials.is_prefix_of(g.partials));
                if ndjson_drain(f).partials.len() == g.partials.len() {
                    assert(ndjson_drain(f).partials.last() == g.partials.last());
                    assert(g.partials.is_prefix_of(ndjson_drain(f).partials));
                    assert(ndjson_drain(f).partials == g.partials);
                    lemma_ndjson_no_piece_keeps_text(g);
                }
            },
            None => {
                lemma_ndjson_text_grows(Flow { pending: rest, ..f });
            },
        }
    }
}

/// A chunk that gives no partial result leaves the text as it was.
pub proof fn lemma_ndjson_no_piece_keeps_text(f: Flow)
    requires
        ndjson_drain(f).partials.len() == f.partials.len(),
    ensures
        ndjson_drain(f).text == f.text,
    decreases f.pending.len(),
{
    let i = first_newline(f.pending);
    if 0 <= i < f.pending.len() {
        let rest = f.pending.skip(i + 1);
        match ndjson_token(f.pending.take(i + 1)) {
            Some(piece) => {
                let g = Flow {
                    pending: rest,
                    text: f.text + piece,
                    partials: f.partials.push(f.text + piece),
                };
                lemma_ndjson_partials_grow(g);
            },
            None => {
                lemma_ndjson_no_piece_keeps_text(Flow { pending: rest, ..f });
            },
        }
    }
}

/// Draining gives no fewer partial results than there were.
proof fn lemma_ndjson_partials_grow(f: Flow)
    ensures
        ndjson_drain(f).partials.len() >= f.partials.len(),
    decreases f.pending.len(),
{
    let i = first_newline(f.pending);
    if 0 <= i < f.pending.len() {
        let rest = f.pending.skip(i + 1);
        match ndjson_token(f.pending.take(i + 1)) {
            Some(piece) => {
                lemma_ndjson_partials_grow(
                    Flow {
                        pending: rest,
                        text: f.text + piece,
                        partials: f.partials.push(f.text + piece),
                    },
                );
            },
            None => {
                lemma_ndjson_partials_grow(Flow { pending: rest, ..f });
            },
        }
    }
}

} // verus!
