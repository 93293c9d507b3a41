use vstd::prelude::*;
use vstd::string::*;

use crate::action::UndoAction;
use crate::history::{
    capped_push, history_of, pop_error, ActionLog, HistoryError, MAX_HISTORY_PER_CONVERSATION,
};
use crate::layout::{backup_path, backup_path_of, should_snapshot, MAX_FILE_SIZE_BYTES};

verus! {

/// Why a snapshot could not be planned.
#[derive(Debug, Clone, Copy, PartialEq, Eq, Structural)]
pub enum SnapshotError {
    /// The path has no final file name component.
    InvalidFileName,
}

impl SnapshotError {
    /// The message relayed to the user for this failure.
    pub fn message(&self) -> (r: String)
        ensures
            r@ == "Invalid file name"@,
    {
        String::from_str("Invalid file name")
    }
}

/// The record that a snapshot of `target` into `backup` at `ts` leaves.
pub open spec fn is_content_record(a: UndoAction, target: Seq<char>, backup: Seq<char>, ts: u64) -> bool {
    match a {
        UndoAction::ContentRestore { target_path, backup_path, timestamp } => target_path@ == target
            && backup_path@ == backup && timestamp == ts,
        _ => false,
    }
}

/// The record that a move from `from` to `to` at `ts` leaves: undoing it moves
/// the file from `to` back to `from`.
pub open spec fn is_move_record(a: UndoAction, from: Seq<char>, to: Seq<char>, ts: u64) -> bool {
    match a {
        UndoAction::MoveReverse { from_path, to_path, timestamp } => from_path@ == to && to_path@
            == from && timestamp == ts,
        _ => false,
    }
}

/// The record that deleting `original` into `trash` at `ts` leaves.
pub open spec fn is_delete_record(a: UndoAction, original: Seq<char>, trash: Seq<char>, ts: u64) -> bool {
    match a {
        UndoAction::DeleteRestore { trash_path, original_path, timestamp } => trash_path@ == trash
            && original_path@ == original && timestamp == ts,
        _ => false,
    }
}

/// The undo history of every conversation, and the operations that record and
/// take back mutations. The file-system work around them is the caller's.
pub struct BackupManager {
    log: ActionLog,
}

impl View for BackupManager {
    type V = Map<Seq<char>, Seq<UndoAction>>;

    closed spec fn view(&self) -> Map<Seq<char>, Seq<UndoAction>> {
        self.log@
    }
}

impl BackupManager {
    pub closed spec fn wf(&self) -> bool {
        self.log.wf()
    }

    /// No conversation ever holds more than `MAX_HISTORY_PER_CONVERSATION`
    /// records.
    pub proof fn lemma_history_within_cap(&self, conversation_id: Seq<char>)
        requires
            self.wf(),
        ensures
            history_of(self@, conversation_id).len() <= MAX_HISTORY_PER_CONVERSATION,
    {
        self.log.lemma_history_within_cap(conversation_id);
    }

    /// A manager with no history.
    pub fn new() -> (r: Self)
        ensures
            r.wf(),
            r@ == Map::<Seq<char>, Seq<UndoAction>>::empty(),
    {
        BackupManager { log: ActionLog::new() }
    }

    /// Appends `action` to the history of `conversation_id`, evicting the
    /// oldest record once the cap is exceeded.
    pub fn push_history(&mut self, conversation_id: &str, action: UndoAction)
        requires
            old(self).wf(),
        ensures
            final(self).wf(),
            final(self)@ == old(self)@.insert(
                conversation_id@,
                capped_push(history_of(old(self)@, conversation_id@), action),
            ),
    {
        self.log.push(conversation_id, action);
    }

    /// Decides whether a file about to be overwritten is snapshotted, and
    /// where. `Ok(None)`: the file is missing or too large, and the overwrite
    /// proceeds without a snapshot. Records nothing.
    pub fn plan_snapshot(
        conversation_id: &str,
        file_exists: bool,
        size: u64,
        file_name: Option<&str>,
        timestamp: u64,
    ) -> (r: Result<Option<String>, SnapshotError>)
        ensures
            (!file_exists || size >= MAX_FILE_SIZE_BYTES) ==> r == Ok::<Option<String>, SnapshotError>(None),
            (file_exists && size < MAX_FILE_SIZE_BYTES) ==> match file_name {
                None => r == Err::<Option<String>, SnapshotError>(SnapshotError::InvalidFileName),
                Some(n) => r matches Ok(Some(p)) && p@ == backup_path_of(
                    conversation_id@,
                    timestamp,
                    n@,
                ),
            },
    {
        let wanted = should_snapshot(file_exists, size);
        if !wanted {
            return Ok(None);
        }
        match file_name {
            None => Err(SnapshotError::InvalidFileName),
            Some(n) => Ok(Some(backup_path(conversation_id, timestamp, n))),
        }
    }

    /// Records that `target_path` was copied to `backup_path` before being
    /// overwritten.
    pub fn record_snapshot(
        &mut self,
        conversation_id: &str,
        target_path: &str,
        backup_path: &str,
        timestamp: u64,
    )
        requires
            old(self).wf(),
        ensures
            final(self).wf(),
            final(self)@ == old(self)@.insert(
                conversation_id@,
                capped_push(history_of(old(self)@, conversation_id@), final(self)@[conversation_id@].last()),
            ),
            is_content_record(final(self)@[conversation_id@].last(), target_path@, backup_path@, timestamp),
    {
        let action = UndoAction::ContentRestore {
            target_path: String::from_str(target_path),
            backup_path: String::from_str(backup_path),
            timestamp,
        };
        self.push_history(conversation_id, action);
        proof { lemma_capped_push_last(history_of(old(self)@, conversation_id@), action); }
    }

    /// Records that a file was moved from `from` to `to`; undoing it moves the
    /// file back.
    pub fn register_move(&mut self, conversation_id: &str, from: &str, to: &str, timestamp: u64)
        requires
            old(self).wf(),
        ensures
            final(self).wf(),
            final(self)@ == old(self)@.insert(
                conversation_id@,
                capped_push(history_of(old(self)@, conversation_id@), final(self)@[conversation_id@].last()),
            ),
            is_move_record(final(self)@[conversation_id@].last(), from@, to@, timestamp),
    {
        let action = UndoAction::MoveReverse {
            from_path: String::from_str(to),
            to_path: String::from_str(from),
            timestamp,
        };
        self.push_history(conversation_id, action);
        proof { lemma_capped_push_last(history_of(old(self)@, conversation_id@), action); }
    }

    /// Records that `original_path` was deleted by moving it to `trash_path`.
    pub fn register_delete(
        &mut self,
        conversation_id: &str,
        original_path: &str,
        trash_path: &str,
        timestamp: u64,
    )
        requires
            old(self).wf(),
        ensures
            final(self).wf(),
            final(self)@ == old(self)@.insert(
                conversation_id@,
                capped_push(history_of(old(self)@, conversation_id@), final(self)@[conversation_id@].last()),
            ),
            is_delete_record(final(self)@[conversation_id@].last(), original_path@, trash_path@, timestamp),
    {
        let action = UndoAction::DeleteRestore {
            trash_path: String::from_str(trash_path),
            original_path: String::from_str(original_path),
            timestamp,
        };
        self.push_history(conversation_id, action);
        proof { lemma_capped_push_last(history_of(old(self)@, conversation_id@), action); }
    }

    /// Removes and returns the most recent record of `conversation_id`. The
    /// record is consumed whatever becomes of its reversal.
    pub fn pop_latest(&mut self, conversation_id: &str) -> (r: Result<UndoAction, HistoryError>)
        requires
            old(self).wf(),
        ensures
            final(self).wf(),
            match pop_error(old(self)@, conversation_id@) {
                Some(e) => r == Err::<UndoAction, HistoryError>(e) && final(self)@ == old(self)@,
                None => r == Ok::<UndoAction, HistoryError>(old(self)@[conversation_id@].last())
                    && final(self)@ == old(self)@.insert(
                    conversation_id@,
                    old(self)@[conversation_id@].drop_last(),
                ),
            },
    {
        self.log.pop_latest(conversation_id)
    }

    /// Forgets the in-memory history of `conversation_id`; files on disk are
    /// left alone.
    pub fn clear_history(&mut self, conversation_id: &str)
        requires
            old(self).wf(),
        ensures
            final(self).wf(),
            final(self)@ == old(self)@.remove(conversation_id@),
    {
        self.log.clear(conversation_id);
    }

    /// The number of records held for `conversation_id`.
    pub fn history_len(&self, conversation_id: &str) -> (r: usize)
        requires
            self.wf(),
        ensures
            r == history_of(self@, conversation_id@).len(),
    {
        self.log.len_of(conversation_id)
    }

    /// Whether `conversation_id` has a history, possibly empty.
    pub fn has_history(&self, conversation_id: &str) -> (r: bool)
        requires
            self.wf(),
        ensures
            r == self@.contains_key(conversation_id@),
    {
        self.log.contains(conversation_id)
    }
}

/// The record just pushed is the newest of the history.
pub proof fn lemma_capped_push_last(s: Seq<UndoAction>, a: UndoAction)
    ensures
        capped_push(s, a).len() > 0,
        capped_push(s, a).last() == a,
{
}

} // verus!
