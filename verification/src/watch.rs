//! The folder watcher's decisions.
//!
//! The caller listens to the file system, sleeps and reads sizes. Here it is
//! decided which events matter, when a file has stopped growing, when to
//! give up on it, and what state the watcher is in.

use vstd::prelude::*;
use crate::document::{lower_extension, lower_extension_of, name_of};
use crate::paths::{extension, extension_of};
use crate::rename::final_name;
use crate::text::{
    chars_of, is_str, owned, split, split_of, string_of, strings, texts, to_unicode_lower, trim,
    trim_of, unicode_lower, CharClass,
};

verus! {

/// The seconds over which raw events are gathered into one.
pub const DEBOUNCE_SECS: u64 = 1;

/// The seconds between two readings of a file's size.
pub const POLL_SECS: u64 = 1;

/// The number of readings after which a file that has not become stable is
/// dropped.
pub const MAX_POLLS: u32 = 30;

/// The number of readings in a row that must show one size, known and not
/// zero, for a file to count as stable.
pub const STABLE_READINGS: u32 = 2;

/// Whether a reading confirms the one before it: both are the same size,
/// and that size is known and not zero.
pub open spec fn confirms(prev: Option<u64>, cur: Option<u64>) -> bool {
    cur == prev && cur is Some && cur != Some(0u64)
}

/// Whether the last two of `readings` show one size, known and not zero.
pub open spec fn settled(readings: Seq<Option<u64>>) -> bool {
    readings.len() >= STABLE_READINGS && confirms(
        readings[readings.len() - 2],
        readings[readings.len() - 1],
    )
}

/// What the watcher makes of a file after a reading.
#[derive(Clone, Copy, Debug, PartialEq, Eq, Structural)]
pub enum Verdict {
    /// The file has stopped growing.
    Stable,
    /// The file is read again.
    Wait,
    /// The file did not settle in time.
    GiveUp,
}

/// The verdict after the readings `readings`, none of which was followed by
/// `Stable` before the last: stable as soon as two readings in a row are
/// equal, known and not zero; given up after `MAX_POLLS` readings that did
/// not get there.
pub open spec fn verdict_after(readings: Seq<Option<u64>>) -> Verdict {
    if settled(readings) {
        Verdict::Stable
    } else if readings.len() >= MAX_POLLS {
        Verdict::GiveUp
    } else {
        Verdict::Wait
    }
}

/// What follows a reading.
pub enum Observation {
    /// The file has stopped growing: surface it.
    Stable,
    /// Read the size again after `POLL_SECS`, and hand the reading to this
    /// check.
    Wait(StabilityCheck),
    /// The file did not settle in time: drop it, silently.
    GiveUp,
}

/// The check of one file for the end of its writing. Each file has a check
/// of its own, so that one file that grows holds up no other. A check exists
/// only while its file is waited for: the reading that ends the wait uses
/// the check up.
pub struct StabilityCheck {
    last: Option<u64>,
    polls: u32,
    seen: Ghost<Seq<Option<u64>>>,
}

impl StabilityCheck {
    /// The readings taken so far.
    pub closed spec fn readings(&self) -> Seq<Option<u64>> {
        self.seen@
    }

    /// What holds of every check: it has counted its readings and remembers
    /// the last of them, and it is still waiting.
    #[verifier::type_invariant]
    spec fn waiting(&self) -> bool {
        &&& self.polls == self.seen@.len()
        &&& self.polls < MAX_POLLS
        &&& self.last == if self.seen@.len() > 0 {
            self.seen@.last()
        } else {
            None
        }
    }

    /// A check that has read nothing.
    pub fn new() -> (c: StabilityCheck)
        ensures
            c.readings() == Seq::<Option<u64>>::empty(),
    {
        StabilityCheck { last: None, polls: 0, seen: Ghost(Seq::empty()) }
    }

    /// Takes a reading of the file's size, nothing where the size could not
    /// be read, and says what follows.
    pub fn observe(self, size: Option<u64>) -> (r: Observation)
        ensures
            match r {
                Observation::Stable => verdict_after(self.readings().push(size))
                    == Verdict::Stable,
                Observation::GiveUp => verdict_after(self.readings().push(size))
                    == Verdict::GiveUp,
                Observation::Wait(next) => verdict_after(self.readings().push(size))
                    == Verdict::Wait && next.readings() == self.readings().push(size),
            },
    {
        proof {
            use_type_invariant(&self);
        }
        let ghost after = self.seen@.push(size);
        let confirmed = match (size, self.last) {
            (Some(now), Some(then)) => now == then && now != 0,
            _ => false,
        };
        assert(confirmed == settled(after));
        let polls = self.polls + 1;
        if confirmed {
            Observation::Stable
        } else if polls >= MAX_POLLS {
            Observation::GiveUp
        } else {
            Observation::Wait(StabilityCheck { last: size, polls, seen: Ghost(after) })
        }
    }
}

/// A file is reported stable exactly when its last two readings show one
/// size, known and not zero: never before there are two such readings in a
/// row, and at the second of them however late it comes.
pub proof fn lemma_stable_means_settled(readings: Seq<Option<u64>>)
    ensures
        verdict_after(readings) == Verdict::Stable <==> readings.len() >= 2
            && readings[readings.len() - 1] == readings[readings.len() - 2]
            && readings.last() is Some && readings.last() != Some(0u64),
{
}

/// A file whose size differs at every reading from the reading before is
/// never reported stable, however long it is read.
pub proof fn lemma_growing_is_never_stable(readings: Seq<Option<u64>>)
    requires
        forall|i: int| 1 <= i < readings.len() ==> #[trigger] readings[i] != readings[i - 1],
    ensures
        forall|n: int| 0 <= n <= readings.len() ==> verdict_after(#[trigger] readings.take(n))
            != Verdict::Stable,
{
    assert forall|n: int| 0 <= n <= readings.len() implies verdict_after(
        #[trigger] readings.take(n),
    ) != Verdict::Stable by {
        let r = readings.take(n);
        if n >= 2 {
            assert(r[n - 1] == readings[n - 1]);
            assert(r[n - 2] == readings[n - 2]);
        }
    }
}

/// No file is waited for beyond `MAX_POLLS` readings.
pub proof fn lemma_polling_ends(readings: Seq<Option<u64>>)
    requires
        readings.len() >= MAX_POLLS,
    ensures
        verdict_after(readings) != Verdict::Wait,
{
}

/// The extensions that a setting lists: the pieces between its commas,
/// trimmed and in lower case, without the empty ones.
pub open spec fn listed(pieces: Seq<Seq<char>>) -> Seq<Seq<char>>
    decreases pieces.len(),
{
    if pieces.len() == 0 {
        Seq::empty()
    } else {
        let rest = listed(pieces.drop_last());
        let piece = unicode_lower(trim_of(pieces.last(), CharClass::Space));
        if piece.len() > 0 {
            rest.push(piece)
        } else {
            rest
        }
    }
}

/// The extensions that the setting `extensions` lists.
pub open spec fn extensions_of(extensions: Seq<char>) -> Seq<Seq<char>> {
    listed(split_of(extensions, ','))
}

/// Reads a list of extensions, as `pdf, docx`.
pub fn parse_extensions(extensions: &str) -> (r: Vec<String>)
    ensures
        strings(r@) == extensions_of(extensions@),
{
    let chars = chars_of(extensions);
    let pieces = split(&chars, ',');
    let ghost all = texts(pieces@);
    let mut out: Vec<String> = Vec::new();
    let mut i: usize = 0;
    assert(strings(out@) == Seq::<Seq<char>>::empty());
    while i < pieces.len()
        invariant
            i <= pieces.len(),
            all == texts(pieces@),
            strings(out@) == listed(all.take(i as int)),
        decreases pieces.len() - i,
    {
        assert(all.take(i + 1).drop_last() == all.take(i as int));
        assert(all.take(i + 1).last() == pieces@[i as int]@);
        let trimmed = trim(&pieces[i], CharClass::Space);
        let lower = to_unicode_lower(&trimmed);
        if lower.len() > 0 {
            let ghost before = strings(out@);
            out.push(string_of(&lower));
            assert(strings(out@) == before.push(lower@));
        }
        i += 1;
    }
    assert(all.take(pieces.len() as int) == all);
    out
}

/// Whether `ext` is one of `exts`.
pub fn has_extension(exts: &Vec<String>, ext: &Vec<char>) -> (r: bool)
    ensures
        r == strings(exts@).contains(ext@),
{
    let mut i: usize = 0;
    while i < exts.len()
        invariant
            i <= exts.len(),
            forall|k: int| 0 <= k < i ==> strings(exts@)[k] != ext@,
        decreases exts.len() - i,
    {
        if is_str(ext, exts[i].as_str()) {
            assert(strings(exts@)[i as int] == ext@);
            return true;
        }
        i += 1;
    }
    false
}

/// A new file to surface: its path and its name.
#[derive(Clone, Debug, PartialEq, Eq)]
pub struct NewFile {
    pub path: String,
    pub name: String,
}

/// Whether an event makes a file a candidate: the event creates something,
/// and the path has an extension that, in lower case, is watched.
pub open spec fn watched(is_create: bool, path: Seq<char>, exts: Seq<Seq<char>>) -> bool {
    is_create && extension_of(path) is Some && exts.contains(lower_extension_of(path))
}

/// The candidate that an event for `path` makes, if it makes one. A
/// candidate is surfaced once its stability check says `Stable`.
pub fn watch_candidate(is_create: bool, path: &str, exts: &Vec<String>) -> (r: Option<NewFile>)
    ensures
        r is Some <==> watched(is_create, path@, strings(exts@)),
        r matches Some(f) ==> f.path@ == path@ && f.name@ == name_of(path@),
{
    if !is_create {
        return None;
    }
    match extension(path) {
        None => None,
        Some(_) => {
            let ext = lower_extension(path);
            if has_extension(exts, &ext) {
                Some(NewFile { path: owned(path), name: final_name(path) })
            } else {
                None
            }
        },
    }
}

/// What the watcher is doing.
#[derive(Debug, PartialEq, Eq)]
pub enum WatchState {
    /// No folder is watched.
    Idle,
    /// One folder is watched, for files with these extensions.
    Watching { folder: String, extensions: Vec<String> },
}

/// A watch to set up.
#[derive(Debug, PartialEq, Eq)]
pub struct WatchPlan {
    pub folder: String,
    pub extensions: Vec<String>,
    pub debounce_secs: u64,
}

/// Begins a watch of `folder`. Any watch that is running is stopped first,
/// since one folder at most is watched: the state is `Idle` until the
/// caller has set the new watch up and says so with `watch_started`.
pub fn start_watching(state: &mut WatchState, folder: &str, extensions: &str) -> (plan: WatchPlan)
    ensures
        *final(state) is Idle,
        plan.folder@ == folder@,
        strings(plan.extensions@) == extensions_of(extensions@),
        plan.debounce_secs == DEBOUNCE_SECS,
{
    *state = WatchState::Idle;
    WatchPlan {
        folder: owned(folder),
        extensions: parse_extensions(extensions),
        debounce_secs: DEBOUNCE_SECS,
    }
}

/// Records that the watch of `plan` is set up.
pub fn watch_started(state: &mut WatchState, plan: WatchPlan)
    ensures
        *final(state) == (WatchState::Watching {
            folder: plan.folder,
            extensions: plan.extensions,
        }),
{
    *state = WatchState::Watching { folder: plan.folder, extensions: plan.extensions };
}

/// Stops the watch, if one is running. The caller drops its listener, which
/// ends the handling of events.
pub fn stop_watching(state: &mut WatchState) -> (was_watching: bool)
    ensures
        *final(state) is Idle,
        was_watching == (*old(state) is Watching),
{
    let was_watching = match state {
        WatchState::Idle => false,
        WatchState::Watching { .. } => true,
    };
    *state = WatchState::Idle;
    was_watching
}

} // verus!
