//! The record of applied renames, and how one of them is undone.
//!
//! The history is a sequence, newest first, of at most `HISTORY_CAP` entries.
//! The caller loads and stores it, under its lock, and touches the file
//! system; what goes into the sequence, what leaves it and when an undo is
//! refused is decided here.

use vstd::prelude::*;
use crate::text::{chars_of, push_str, string_of};

verus! {

/// How many entries the history keeps.
pub const HISTORY_CAP: usize = 200;

/// One applied rename.
#[derive(Clone, Debug, PartialEq, Eq)]
pub struct HistoryEntry {
    pub id: u64,
    pub original_path: String,
    pub original_name: String,
    pub new_path: String,
    pub new_name: String,
    pub timestamp: String,
}

/// The history after `entry` was added to `history`: the entry first, then
/// the old entries, as many as the cap leaves room for.
pub open spec fn added(history: Seq<HistoryEntry>, entry: HistoryEntry) -> Seq<HistoryEntry> {
    let all = seq![entry] + history;
    if all.len() <= HISTORY_CAP {
        all
    } else {
        all.take(HISTORY_CAP as int)
    }
}

/// Puts `entry` at the head of the history and drops what exceeds the cap.
pub fn add_history(history: &mut Vec<HistoryEntry>, entry: HistoryEntry)
    ensures
        final(history)@ == added(old(history)@, entry),
        final(history)@.len() <= HISTORY_CAP,
        final(history)@[0] == entry,
{
    let ghost before = history@;
    if history.len() >= HISTORY_CAP {
        history.truncate(HISTORY_CAP - 1);
    }
    history.insert(0, entry);
    assert(history@ == added(before, entry));
}

/// The index of the first entry of `history` with the id `id`; the length of
/// the history where no entry has it.
pub open spec fn position_of(history: Seq<HistoryEntry>, id: u64) -> int
    decreases history.len(),
{
    if history.len() == 0 {
        0
    } else if history[0].id == id {
        0
    } else {
        1 + position_of(history.drop_first(), id)
    }
}

/// Whether some entry of `history` has the id `id`.
pub open spec fn recorded(history: Seq<HistoryEntry>, id: u64) -> bool {
    exists|i: int| 0 <= i < history.len() && (#[trigger] history[i]).id == id
}

/// `position_of` lies within the history; it points at an entry with the id,
/// none before it has the id, and it reaches the end exactly if no entry has
/// the id.
pub proof fn lemma_position_of(history: Seq<HistoryEntry>, id: u64)
    ensures
        0 <= position_of(history, id) <= history.len(),
        position_of(history, id) < history.len() ==> history[position_of(history, id)].id == id,
        forall|i: int| 0 <= i < position_of(history, id) ==> (#[trigger] history[i]).id != id,
        position_of(history, id) < history.len() <==> recorded(history, id),
    decreases history.len(),
{
    if history.len() > 0 && history[0].id != id {
        let rest = history.drop_first();
        lemma_position_of(rest, id);
        assert forall|i: int| 0 <= i < position_of(history, id) implies (
        #[trigger] history[i]).id != id by {
            if i > 0 {
                assert(history[i] == rest[i - 1]);
            }
        }
        if recorded(history, id) {
            let i = choose|i: int| 0 <= i < history.len() && (#[trigger] history[i]).id == id;
            assert(rest[i - 1].id == id);
        }
        if recorded(rest, id) {
            let i = choose|i: int| 0 <= i < rest.len() && (#[trigger] rest[i]).id == id;
            assert(history[i + 1].id == id);
        }
    } else if history.len() > 0 {
        assert(history[0].id == id);
    }
}

/// Why an undo is refused.
#[derive(Clone, Copy, Debug, PartialEq, Eq, Structural)]
pub enum UndoFault {
    /// No entry of the history has the id.
    EntryNotFound,
    /// The renamed file is no longer where the entry says. Detail: that path.
    SourceMissing,
    /// Something stands at the original path. Detail: that path.
    DestinationOccupied,
}

/// A refused undo.
#[derive(Debug, PartialEq, Eq)]
pub struct UndoError {
    pub kind: UndoFault,
    pub detail: String,
}

/// The fixed text that the message of a refused undo starts with.
pub open spec fn undo_prefix(kind: UndoFault) -> Seq<char> {
    match kind {
        UndoFault::EntryNotFound => "未找到该历史记录"@,
        UndoFault::SourceMissing => "文件不存在: "@,
        UndoFault::DestinationOccupied => "原路径已有文件: "@,
    }
}

impl View for UndoError {
    type V = (UndoFault, Seq<char>);

    open spec fn view(&self) -> (UndoFault, Seq<char>) {
        (self.kind, self.detail@)
    }
}

impl UndoError {
    /// The message for a user: the kind's text, then the detail.
    pub fn message(&self) -> (m: String)
        ensures
            m@ == undo_prefix(self.kind) + self.detail@,
    {
        let prefix = match self.kind {
            UndoFault::EntryNotFound => "未找到该历史记录",
            UndoFault::SourceMissing => "文件不存在: ",
            UndoFault::DestinationOccupied => "原路径已有文件: ",
        };
        let mut out = chars_of(prefix);
        push_str(&mut out, self.detail.as_str());
        string_of(&out)
    }
}

/// Finds the entry to undo: the index of the first entry with the id `id`.
/// It fails, with `EntryNotFound`, exactly if no entry has that id. The
/// history is not touched.
pub fn find_entry(history: &Vec<HistoryEntry>, id: u64) -> (r: Result<usize, UndoError>)
    ensures
        match r {
            Ok(i) => recorded(history@, id) && i == position_of(history@, id) && i
                < history@.len() && history@[i as int].id == id,
            Err(e) => !recorded(history@, id) && e@ == (
                UndoFault::EntryNotFound,
                Seq::<char>::empty(),
            ),
        },
{
    let mut i: usize = 0;
    assert(history@.skip(0) == history@);
    while i < history.len() && history[i].id != id
        invariant
            i <= history.len(),
            position_of(history@, id) == i + position_of(history@.skip(i as int), id),
        decreases history.len() - i,
    {
        assert(history@.skip(i as int).drop_first() == history@.skip(i + 1));
        i += 1;
    }
    proof {
        lemma_position_of(history@, id);
    }
    if i < history.len() {
        Ok(i)
    } else {
        Err(UndoError { kind: UndoFault::EntryNotFound, detail: String::new() })
    }
}

/// Whether the move that undoes `entry` may be made: the renamed file must
/// still stand at its new path, and the original path must be free.
pub fn check_undo(entry: &HistoryEntry, renamed_exists: bool, original_exists: bool) -> (r: Result<
    (),
    UndoError,
>)
    ensures
        match r {
            Ok(_) => renamed_exists && !original_exists,
            Err(e) => if !renamed_exists {
                e@ == (UndoFault::SourceMissing, entry.new_path@)
            } else {
                original_exists && e@ == (UndoFault::DestinationOccupied, entry.original_path@)
            },
        },
{
    if !renamed_exists {
        Err(UndoError { kind: UndoFault::SourceMissing, detail: entry.new_path.clone() })
    } else if original_exists {
        Err(
            UndoError {
                kind: UndoFault::DestinationOccupied,
                detail: entry.original_path.clone(),
            },
        )
    } else {
        Ok(())
    }
}

/// Takes the entry at `index` out of the history, once the file is back at
/// its original path. The other entries keep their order.
pub fn take_entry(history: &mut Vec<HistoryEntry>, index: usize) -> (entry: HistoryEntry)
    requires
        index < old(history)@.len(),
    ensures
        entry == old(history)@[index as int],
        final(history)@ == old(history)@.remove(index as int),
{
    history.remove(index)
}

/// Adding an entry whose id is new and undoing it at once gives back the
/// history as it was, as long as the cap dropped nothing.
pub proof fn lemma_undo_restores(history: Seq<HistoryEntry>, entry: HistoryEntry)
    requires
        history.len() < HISTORY_CAP,
    ensures
        recorded(added(history, entry), entry.id),
        position_of(added(history, entry), entry.id) == 0,
        added(history, entry).remove(0) == history,
{
    let after = added(history, entry);
    assert(after[0].id == entry.id);
}

/// An undo for an id that no entry has changes nothing: there is no entry to
/// take, whatever the file system holds.
pub proof fn lemma_unknown_id_is_not_found(history: Seq<HistoryEntry>, id: u64)
    requires
        !recorded(history, id),
    ensures
        position_of(history, id) == history.len(),
{
    lemma_position_of(history, id);
}

} // verus!
