//! The events that tell an observer how the naming of a file goes.
//!
//! For each file the observer sees `Thinking`, then any number of `Partial`
//! events, then exactly one `Done` or `Error`. A session holds the naming of
//! one file; it can only be opened, fed and closed, and closing consumes it,
//! so no other order of events can be made.

use vstd::prelude::*;
use crate::config::Provider;
use crate::naming::{clean_filename, clean_name, dotted_extension, dotted_extension_of};
use crate::stream::{ndjson_end, ndjson_fed, sse_fed, NdjsonStream, SseStream};
use crate::text::{opt_str, owned, strings};

verus! {

/// An event for the observer of a batch.
#[derive(Clone, Debug, PartialEq, Eq)]
pub enum StreamEvent {
    /// The naming of the file has begun.
    Thinking { file_name: String },
    /// The answer so far.
    Partial { file_name: String, partial: String },
    /// The naming has ended with a name.
    Done { file_name: String, suggested: String },
    /// The naming has ended without a name.
    Error { file_name: String, message: String },
}

/// The view of an event.
pub enum StreamEventView {
    Thinking { file_name: Seq<char> },
    Partial { file_name: Seq<char>, partial: Seq<char> },
    Done { file_name: Seq<char>, suggested: Seq<char> },
    Error { file_name: Seq<char>, message: Seq<char> },
}

impl View for StreamEvent {
    type V = StreamEventView;

    open spec fn view(&self) -> StreamEventView {
        match self {
            StreamEvent::Thinking { file_name } => StreamEventView::Thinking {
                file_name: file_name@,
            },
            StreamEvent::Partial { file_name, partial } => StreamEventView::Partial {
                file_name: file_name@,
                partial: partial@,
            },
            StreamEvent::Done { file_name, suggested } => StreamEventView::Done {
                file_name: file_name@,
                suggested: suggested@,
            },
            StreamEvent::Error { file_name, message } => StreamEventView::Error {
                file_name: file_name@,
                message: message@,
            },
        }
    }
}

/// The file that an event is about.
pub open spec fn file_of(e: StreamEventView) -> Seq<char> {
    match e {
        StreamEventView::Thinking { file_name } => file_name,
        StreamEventView::Partial { file_name, .. } => file_name,
        StreamEventView::Done { file_name, .. } => file_name,
        StreamEventView::Error { file_name, .. } => file_name,
    }
}

/// Whether an event ends the naming of its file.
pub open spec fn terminal(e: StreamEventView) -> bool {
    e is Done || e is Error
}

/// Whether `events` are the events of an open naming of `file`: `Thinking`
/// first, then `Partial` events only, all about `file`.
pub open spec fn well_begun(events: Seq<StreamEventView>, file: Seq<char>) -> bool {
    &&& events.len() >= 1
    &&& events[0] == StreamEventView::Thinking { file_name: file }
    &&& forall|i: int| 1 <= i < events.len() ==> (#[trigger] events[i]) is Partial
    &&& forall|i: int| 0 <= i < events.len() ==> file_of(#[trigger] events[i]) == file
}

/// Whether `events` are the events of a whole naming of `file`: those of an
/// open naming and one terminal event after them.
pub open spec fn complete(events: Seq<StreamEventView>, file: Seq<char>) -> bool {
    &&& events.len() >= 2
    &&& well_begun(events.drop_last(), file)
    &&& terminal(events.last())
    &&& file_of(events.last()) == file
}

/// In a whole naming exactly one event is terminal, the last one; none
/// before it is, and the first is `Thinking`.
pub proof fn lemma_one_terminal(events: Seq<StreamEventView>, file: Seq<char>)
    requires
        complete(events, file),
    ensures
        events[0] is Thinking,
        forall|i: int| 0 <= i < events.len() ==> (terminal(#[trigger] events[i]) <==> i
            == events.len() - 1),
        forall|i: int| 1 <= i < events.len() - 1 ==> (#[trigger] events[i]) is Partial,
{
    let open = events.drop_last();
    assert forall|i: int| 0 <= i < events.len() implies (terminal(#[trigger] events[i]) <==> i
        == events.len() - 1) by {
        if i < events.len() - 1 {
            assert(events[i] == open[i]);
            if i >= 1 {
                assert(open[i] is Partial);
            }
        }
    }
    assert forall|i: int| 1 <= i < events.len() - 1 implies (#[trigger] events[i]) is Partial by {
        assert(events[i] == open[i]);
    }
    assert(events[0] == open[0]);
}

/// The decoder of a session.
#[derive(Debug, PartialEq, Eq)]
pub enum Decoder {
    Local(NdjsonStream),
    Hosted(SseStream),
}

/// The view of a decoder: what is pending, the text so far, and for the
/// hosted stream whether it has ended.
pub enum DecoderView {
    Local { bytes: Seq<u8>, text: Seq<char> },
    Hosted { chars: Seq<char>, text: Seq<char>, done: bool },
}

impl View for Decoder {
    type V = DecoderView;

    open spec fn view(&self) -> DecoderView {
        match self {
            Decoder::Local(s) => DecoderView::Local { bytes: s.pending(), text: s.text() },
            Decoder::Hosted(s) => DecoderView::Hosted {
                chars: s.pending(),
                text: s.text(),
                done: s.done(),
            },
        }
    }
}

/// The decoder after it took in `chunk`.
pub open spec fn decoder_fed(d: DecoderView, chunk: Seq<u8>) -> DecoderView {
    match d {
        DecoderView::Local { bytes, text } => {
            let f = ndjson_fed(bytes, text, chunk);
            DecoderView::Local { bytes: f.pending, text: f.text }
        },
        DecoderView::Hosted { chars, text, done } => {
            let f = sse_fed(chars, text, done, chunk);
            DecoderView::Hosted { chars: f.pending, text: f.text, done: f.done }
        },
    }
}

/// The partial results that `chunk` gives.
pub open spec fn partials_of(d: DecoderView, chunk: Seq<u8>) -> Seq<Seq<char>> {
    match d {
        DecoderView::Local { bytes, text } => ndjson_fed(bytes, text, chunk).partials,
        DecoderView::Hosted { chars, text, done } => sse_fed(chars, text, done, chunk).partials,
    }
}

/// Whether a decoder has read the end of its stream. The local stream has
/// no mark for its end.
pub open spec fn ended(d: DecoderView) -> bool {
    d matches DecoderView::Hosted { done, .. } && done
}

/// The final text of a decoder.
pub open spec fn final_text(d: DecoderView) -> Seq<char> {
    match d {
        DecoderView::Local { bytes, text } => ndjson_end(bytes, text),
        DecoderView::Hosted { text, .. } => text,
    }
}

impl Decoder {
    /// Takes in a chunk and gives the partial results of the lines that it
    /// completes, in order.
    pub fn feed(&mut self, chunk: &[u8]) -> (partials: Vec<String>)
        ensures
            final(self)@ == decoder_fed(old(self)@, chunk@),
            strings(partials@) == partials_of(old(self)@, chunk@),
    {
        match self {
            Decoder::Local(s) => s.feed(chunk),
            Decoder::Hosted(s) => s.feed(chunk),
        }
    }

    /// Whether the stream has ended: the caller need not read on.
    pub fn is_done(&self) -> (r: bool)
        ensures
            r == ended(self@),
    {
        match self {
            Decoder::Local(_) => false,
            Decoder::Hosted(s) => s.is_done(),
        }
    }

    /// The final text, once the stream has ended.
    pub fn finish(self) -> (r: String)
        ensures
            r@ == final_text(self@),
    {
        match self {
            Decoder::Local(s) => s.finish(),
            Decoder::Hosted(s) => s.finish(),
        }
    }
}

/// The event that ends the naming of `file`. A failure, of the extraction or
/// of the stream, is reported as it is. Else the final text is cleaned, with
/// the file's own extension taken off; if nothing is left the model gave no
/// name, and that is an error too.
pub open spec fn closing(file: Seq<char>, failure: Option<Seq<char>>, raw: Seq<char>) -> StreamEventView {
    match failure {
        Some(message) => StreamEventView::Error { file_name: file, message },
        None => {
            let name = clean_name(raw, dotted_extension_of(file));
            if name.len() == 0 {
                StreamEventView::Error { file_name: file, message: "AI 返回了空文件名"@ }
            } else {
                StreamEventView::Done { file_name: file, suggested: name }
            }
        },
    }
}

/// The naming of one file, as its observer sees it.
pub struct NamingSession {
    file_name: String,
    decoder: Decoder,
    log: Ghost<Seq<StreamEventView>>,
}

impl NamingSession {
    /// The file that is being named.
    pub closed spec fn file(&self) -> Seq<char> {
        self.file_name@
    }

    /// The events given so far.
    pub closed spec fn log(&self) -> Seq<StreamEventView> {
        self.log@
    }

    /// The decoder of the session.
    pub closed spec fn decoder(&self) -> DecoderView {
        self.decoder@
    }

    /// What holds of every session: its events are those of an open naming
    /// of its file.
    #[verifier::type_invariant]
    spec fn begun(&self) -> bool {
        well_begun(self.log@, self.file_name@)
    }

    /// Begins the naming of `file_name` with the provider `provider`, and
    /// gives the event that says so.
    pub fn open(file_name: &str, provider: Provider) -> (r: (NamingSession, StreamEvent))
        ensures
            well_begun(r.0.log(), r.0.file()),
            r.0.file() == file_name@,
            r.0.log() == seq![r.1@],
            r.1@ == (StreamEventView::Thinking { file_name: file_name@ }),
            r.0.decoder() == match provider {
                Provider::Local => DecoderView::Local { bytes: Seq::empty(), text: Seq::empty() },
                Provider::Hosted => DecoderView::Hosted {
                    chars: Seq::empty(),
                    text: Seq::empty(),
                    done: false,
                },
            },
    {
        let decoder = match provider {
            Provider::Local => Decoder::Local(NdjsonStream::new()),
            Provider::Hosted => Decoder::Hosted(SseStream::new()),
        };
        let event = StreamEvent::Thinking { file_name: owned(file_name) };
        let ghost first = seq![event@];
        let session = NamingSession { file_name: owned(file_name), decoder, log: Ghost(first) };
        (session, event)
    }

    /// Whether the answer has come to its end: the caller need not read on.
    pub fn is_done(&self) -> (r: bool)
        ensures
            r == ended(self.decoder()),
    {
        self.decoder.is_done()
    }

    /// Takes in a chunk of the streamed answer and gives the session as it
    /// is then, with a `Partial` event for each piece that the chunk
    /// completes, each with the text so far.
    pub fn feed(self, chunk: &[u8]) -> (r: (NamingSession, Vec<StreamEvent>))
        ensures
            well_begun(r.0.log(), r.0.file()),
            r.0.file() == self.file(),
            r.0.decoder() == decoder_fed(self.decoder(), chunk@),
            r.0.log() == self.log() + r.1@.map_values(|e: StreamEvent| e@),
            r.1@.len() == partials_of(self.decoder(), chunk@).len(),
            forall|i: int|
                0 <= i < r.1@.len() ==> (#[trigger] r.1@[i])@ == (StreamEventView::Partial {
                    file_name: self.file(),
                    partial: partials_of(self.decoder(), chunk@)[i],
                }),
    {
        proof {
            use_type_invariant(&self);
        }
        let ghost before = self.log@;
        let file_name = self.file_name;
        let mut decoder = self.decoder;
        let partials = decoder.feed(chunk);
        let mut events: Vec<StreamEvent> = Vec::new();
        let mut i: usize = 0;
        while i < partials.len()
            invariant
                i <= partials.len(),
                events@.len() == i,
                forall|k: int|
                    0 <= k < i ==> (#[trigger] events@[k])@ == (StreamEventView::Partial {
                        file_name: file_name@,
                        partial: strings(partials@)[k],
                    }),
            decreases partials.len() - i,
        {
            events.push(
                StreamEvent::Partial { file_name: file_name.clone(), partial: partials[i].clone() },
            );
            i += 1;
        }
        let ghost views = events@.map_values(|e: StreamEvent| e@);
        let ghost after = before + views;
        proof {
            assert forall|k: int| 1 <= k < after.len() implies (#[trigger] after[k]) is Partial by {
                if k >= before.len() {
                    assert(after[k] == events@[k - before.len()]@);
                }
            }
            assert forall|k: int| 0 <= k < after.len() implies file_of(#[trigger] after[k])
                == file_name@ by {
                if k >= before.len() {
                    assert(after[k] == events@[k - before.len()]@);
                }
            }
        }
        (NamingSession { file_name, decoder, log: Ghost(after) }, events)
    }

    /// Ends the naming and gives the terminal event. `failure` is the message
    /// of what went wrong before or while the answer came; nothing if the
    /// stream ended as it should.
    pub fn close(self, failure: Option<&str>) -> (event: StreamEvent)
        ensures
            event@ == closing(self.file(), opt_str(failure), final_text(self.decoder())),
            complete(self.log().push(event@), self.file()),
    {
        proof {
            use_type_invariant(&self);
        }
        let ghost log = self.log@;
        let file_name = self.file_name;
        let event = match failure {
            Some(message) => StreamEvent::Error { file_name, message: owned(message) },
            None => {
                let raw = self.decoder.finish();
                let ext = dotted_extension(file_name.as_str());
                let name = match &ext {
                    Some(e) => clean_filename(raw.as_str(), Some(e.as_str())),
                    None => clean_filename(raw.as_str(), None),
                };
                if name.as_str().unicode_len() == 0 {
                    StreamEvent::Error { file_name, message: owned("AI 返回了空文件名") }
                } else {
                    StreamEvent::Done { file_name, suggested: name }
                }
            },
        };
        assert(log.push(event@).drop_last() == log);
        event
    }
}

} // verus!
