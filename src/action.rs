use vstd::prelude::*;
use vstd::string::*;

verus! {

/// One reversible mutation, recorded so that it can later be undone.
#[derive(Debug)]
pub enum UndoAction {
    /// The content of `target_path` was overwritten; `backup_path` holds the
    /// pristine bytes.
    ContentRestore { target_path: String, backup_path: String, timestamp: u64 },
    /// A file was moved: it now lives at `from_path` and belongs at `to_path`.
    MoveReverse { from_path: String, to_path: String, timestamp: u64 },
    /// A file was deleted by moving it to `trash_path`; it belongs at
    /// `original_path`.
    DeleteRestore { trash_path: String, original_path: String, timestamp: u64 },
}

impl UndoAction {
    /// Seconds since the Unix epoch at which the mutation was recorded.
    pub fn timestamp(&self) -> (r: u64)
        ensures
            r == self.spec_timestamp(),
    {
        match self {
            UndoAction::ContentRestore { timestamp, .. } => *timestamp,
            UndoAction::MoveReverse { timestamp, .. } => *timestamp,
            UndoAction::DeleteRestore { timestamp, .. } => *timestamp,
        }
    }

    pub open spec fn spec_timestamp(&self) -> u64 {
        match self {
            UndoAction::ContentRestore { timestamp, .. } => *timestamp,
            UndoAction::MoveReverse { timestamp, .. } => *timestamp,
            UndoAction::DeleteRestore { timestamp, .. } => *timestamp,
        }
    }
    /// The file that must still exist for the reversal to proceed: the
    /// snapshot, the moved file, or the trashed file.
    pub open spec fn spec_source(&self) -> Seq<char> {
        match self {
            UndoAction::ContentRestore { backup_path, .. } => backup_path@,
            UndoAction::MoveReverse { from_path, .. } => from_path@,
            UndoAction::DeleteRestore { trash_path, .. } => trash_path@,
        }
    }

    /// The path that the reversal writes: the overwritten file, or where the
    /// moved or deleted file belongs.
    pub open spec fn spec_destination(&self) -> Seq<char> {
        match self {
            UndoAction::ContentRestore { target_path, .. } => target_path@,
            UndoAction::MoveReverse { to_path, .. } => to_path@,
            UndoAction::DeleteRestore { original_path, .. } => original_path@,
        }
    }

    /// Whether the reversal copies bytes back (the source is kept) rather
    /// than relocating the source.
    pub open spec fn spec_copies(&self) -> bool {
        self is ContentRestore
    }

    /// The file that must still exist for the reversal to proceed.
    pub fn source(&self) -> (r: &str)
        ensures
            r@ == self.spec_source(),
    {
        match self {
            UndoAction::ContentRestore { backup_path, .. } => backup_path.as_str(),
            UndoAction::MoveReverse { from_path, .. } => from_path.as_str(),
            UndoAction::DeleteRestore { trash_path, .. } => trash_path.as_str(),
        }
    }

    /// The path that the reversal writes.
    pub fn destination(&self) -> (r: &str)
        ensures
            r@ == self.spec_destination(),
    {
        match self {
            UndoAction::ContentRestore { target_path, .. } => target_path.as_str(),
            UndoAction::MoveReverse { to_path, .. } => to_path.as_str(),
            UndoAction::DeleteRestore { original_path, .. } => original_path.as_str(),
        }
    }

    /// Whether the reversal copies the source's bytes over the destination,
    /// as opposed to moving the source there.
    pub fn copies(&self) -> (r: bool)
        ensures
            r == self.spec_copies(),
    {
        match self {
            UndoAction::ContentRestore { .. } => true,
            _ => false,
        }
    }

    /// Whether the reversal first creates the destination's parent
    /// directories.
    pub fn creates_parent(&self) -> (r: bool)
        ensures
            r == !self.spec_copies(),
    {
        !self.copies()
    }

    pub open spec fn spec_missing_message(&self) -> Seq<char> {
        match self {
            UndoAction::ContentRestore { backup_path, .. } => "Backup file missing: "@ + backup_path@,
            UndoAction::MoveReverse { from_path, .. } => "File not found at "@ + from_path@
                + ". Cannot move back."@,
            UndoAction::DeleteRestore { trash_path, .. } => "Trash file missing: "@ + trash_path@,
        }
    }

    /// The message reported when the source no longer exists.
    pub fn missing_message(&self) -> (r: String)
        ensures
            r@ == self.spec_missing_message(),
    {
        match self {
            UndoAction::ContentRestore { backup_path, .. } => {
                String::from_str("Backup file missing: ").concat(backup_path.as_str())
            },
            UndoAction::MoveReverse { from_path, .. } => {
                String::from_str("File not found at ").concat(from_path.as_str()).concat(
                    ". Cannot move back.",
                )
            },
            UndoAction::DeleteRestore { trash_path, .. } => {
                String::from_str("Trash file missing: ").concat(trash_path.as_str())
            },
        }
    }

    pub open spec fn spec_done_message(&self) -> Seq<char> {
        match self {
            UndoAction::ContentRestore { target_path, .. } => "Restored content of "@ + target_path@,
            UndoAction::MoveReverse { from_path, to_path, .. } => "Moved "@ + from_path@
                + " back to "@ + to_path@,
            UndoAction::DeleteRestore { original_path, .. } => "Restored "@ + original_path@
                + " from trash"@,
        }
    }

    /// The message reported once the reversal succeeded.
    pub fn done_message(&self) -> (r: String)
        ensures
            r@ == self.spec_done_message(),
    {
        match self {
            UndoAction::ContentRestore { target_path, .. } => {
                String::from_str("Restored content of ").concat(target_path.as_str())
            },
            UndoAction::MoveReverse { from_path, to_path, .. } => {
                String::from_str("Moved ").concat(from_path.as_str()).concat(" back to ").concat(
                    to_path.as_str(),
                )
            },
            UndoAction::DeleteRestore { original_path, .. } => {
                String::from_str("Restored ").concat(original_path.as_str()).concat(
                    " from trash",
                )
            },
        }
    }

    pub open spec fn spec_failure_prefix(&self) -> Seq<char> {
        match self {
            UndoAction::ContentRestore { .. } => "Failed to restore file: "@,
            UndoAction::MoveReverse { .. } => "Failed to move file back: "@,
            UndoAction::DeleteRestore { .. } => "Failed to restore from trash: "@,
        }
    }

    /// The message reported when copying or moving the source failed with
    /// `cause`.
    pub fn failure_message(&self, cause: &str) -> (r: String)
        ensures
            r@ == self.spec_failure_prefix() + cause@,
    {
        let prefix = match self {
            UndoAction::ContentRestore { .. } => String::from_str("Failed to restore file: "),
            UndoAction::MoveReverse { .. } => String::from_str("Failed to move file back: "),
            UndoAction::DeleteRestore { .. } => String::from_str("Failed to restore from trash: "),
        };
        prefix.concat(cause)
    }
}

} // verus!
