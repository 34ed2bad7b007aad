use vstd::prelude::*;

use crate::path::{FilePath, PathModel};

verus! {

/// One finished conversion, as the history keeps it.
#[derive(Debug, Clone, PartialEq, Eq)]
pub struct HistoryEntry {
    pub file_path: String,
    pub output_path: Option<String>,
    pub status: String,
    pub message: String,
    pub completed_at: String,
}

/// The model of a history entry: file path, output path, status, message
/// and completion time.
pub type EntryModel = (Seq<char>, Option<Seq<char>>, Seq<char>, Seq<char>, Seq<char>);

/// The text of an optional string.
pub open spec fn optional_text(s: Option<String>) -> Option<Seq<char>> {
    match s {
        Some(t) => Some(t@),
        None => None,
    }
}

impl View for HistoryEntry {
    type V = EntryModel;

    open spec fn view(&self) -> EntryModel {
        (self.file_path@, optional_text(self.output_path), self.status@, self.message@, self.completed_at@)
    }
}

/// The models of a list of entries.
pub open spec fn entries_model(entries: Seq<HistoryEntry>) -> Seq<EntryModel> {
    entries.map_values(|e: HistoryEntry| e@)
}

/// The most entries the history keeps.
pub const HISTORY_LIMIT: usize = 50;

/// Where the history is stored: a JSON file.
#[derive(Debug)]
pub struct HistoryStore {
    path: FilePath,
}

impl View for HistoryStore {
    type V = PathModel;

    closed spec fn view(&self) -> PathModel {
        self.path@
    }
}

impl HistoryStore {
    /// A store that keeps the history in the file at `path`.
    pub fn new(path: FilePath) -> (r: HistoryStore)
        ensures
            r@ == path@,
    {
        HistoryStore { path }
    }

    /// The file that holds the history.
    pub fn path(&self) -> (r: &FilePath)
        ensures
            r@ == self@,
    {
        &self.path
    }
}

/// Puts `entry` first in the history, before all older entries.
pub fn record_entry(history: &mut Vec<HistoryEntry>, entry: HistoryEntry)
    ensures
        final(history)@ == seq![entry].add(old(history)@),
{
    history.insert(0, entry);
    assert(history@ =~= seq![entry].add(old(history)@));
}

/// Keeps only the `HISTORY_LIMIT` newest entries.
pub fn trim_history(history: &mut Vec<HistoryEntry>)
    ensures
        final(history)@ == if old(history)@.len() <= HISTORY_LIMIT {
            old(history)@
        } else {
            old(history)@.take(HISTORY_LIMIT as int)
        },
{
    history.truncate(HISTORY_LIMIT);
}

/// Law: after an entry is recorded and the history trimmed, the entry comes
/// first, the older entries follow in their order, and no more than
/// `HISTORY_LIMIT` remain.
pub proof fn law_record_then_trim(history: Seq<HistoryEntry>, entry: HistoryEntry)
    ensures
        ({
            let recorded = seq![entry].add(history);
            let kept = if recorded.len() <= HISTORY_LIMIT {
                recorded
            } else {
                recorded.take(HISTORY_LIMIT as int)
            };
            &&& kept.len() <= HISTORY_LIMIT
            &&& kept[0] == entry
            &&& forall|i: int| 1 <= i < kept.len() ==> kept[i] == history[i - 1]
        }),
{
}

} // verus!
