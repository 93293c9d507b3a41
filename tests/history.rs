use kuse_undo::history::{ActionLog, MAX_HISTORY_PER_CONVERSATION};
use kuse_undo::{BackupManager, HistoryError, UndoAction};

fn move_at(ts: u64) -> UndoAction {
    UndoAction::MoveReverse {
        from_path: format!("b{}", ts),
        to_path: format!("a{}", ts),
        timestamp: ts,
    }
}

#[test]
fn eleventh_push_evicts_oldest() {
    let mut m = BackupManager::new();
    for ts in 1..=11u64 {
        m.push_history("c1", move_at(ts));
        assert!(m.history_len("c1") <= MAX_HISTORY_PER_CONVERSATION);
    }
    assert_eq!(m.history_len("c1"), 10);
    let mut seen = Vec::new();
    while let Ok(a) = m.pop_latest("c1") {
        seen.push(a.timestamp());
    }
    assert_eq!(seen, vec![11, 10, 9, 8, 7, 6, 5, 4, 3, 2]);
}

#[test]
fn many_pushes_keep_newest_ten_in_order() {
    let mut log = ActionLog::new();
    for ts in 0..25u64 {
        log.push("c", move_at(ts));
    }
    assert_eq!(log.len_of("c"), 10);
    for expected in (15..25u64).rev() {
        assert_eq!(log.pop_latest("c").unwrap().timestamp(), expected);
    }
    assert_eq!(log.pop_latest("c").unwrap_err(), HistoryError::NothingToUndo);
}

#[test]
fn pushes_below_cap_are_all_kept() {
    let mut m = BackupManager::new();
    for ts in 0..7u64 {
        m.register_move("c", "x", "y", ts);
    }
    assert_eq!(m.history_len("c"), 7);
}

#[test]
fn unknown_and_empty_conversations_fail_differently() {
    let mut m = BackupManager::new();
    assert_eq!(m.pop_latest("nobody").unwrap_err(), HistoryError::NoHistory);
    m.register_move("c", "a", "b", 1);
    assert!(m.pop_latest("c").is_ok());
    assert_eq!(m.pop_latest("c").unwrap_err(), HistoryError::NothingToUndo);
    assert!(m.has_history("c"));
    assert_ne!(HistoryError::NoHistory, HistoryError::NothingToUndo);
}

#[test]
fn history_error_messages() {
    assert_eq!(HistoryError::NoHistory.message(), "No history for this conversation");
    assert_eq!(HistoryError::NothingToUndo.message(), "Nothing to undo");
}

#[test]
fn conversations_are_isolated() {
    let mut m = BackupManager::new();
    m.register_move("one", "a", "b", 1);
    m.register_delete("two", "p", "t", 2);
    m.register_delete("two", "q", "u", 3);
    assert_eq!(m.history_len("one"), 1);
    assert_eq!(m.history_len("two"), 2);
    let a = m.pop_latest("one").unwrap();
    assert_eq!(a.timestamp(), 1);
    assert_eq!(m.history_len("two"), 2);
}

#[test]
fn clear_then_undo_reports_no_history() {
    let mut m = BackupManager::new();
    m.record_snapshot("c", "f.txt", ".kuse/backups/c/1/f.txt", 1);
    m.register_move("other", "a", "b", 2);
    m.clear_history("c");
    assert!(!m.has_history("c"));
    assert_eq!(m.history_len("c"), 0);
    assert_eq!(m.pop_latest("c").unwrap_err(), HistoryError::NoHistory);
    assert_eq!(m.history_len("other"), 1);
    m.clear_history("c");
    m.clear_history("never");
    assert_eq!(m.pop_latest("c").unwrap_err(), HistoryError::NoHistory);
}

#[test]
fn move_undo_relocates_back_then_nothing_left() {
    let mut m = BackupManager::new();
    m.register_move("c", "dir/a.txt", "other/b.txt", 42);
    let a = m.pop_latest("c").unwrap();
    assert_eq!(a.source(), "other/b.txt");
    assert_eq!(a.destination(), "dir/a.txt");
    assert!(!a.copies());
    assert!(a.creates_parent());
    assert_eq!(a.done_message(), "Moved other/b.txt back to dir/a.txt");
    assert_eq!(a.missing_message(), "File not found at other/b.txt. Cannot move back.");
    assert_eq!(a.failure_message("denied"), "Failed to move file back: denied");
    assert_eq!(m.pop_latest("c").unwrap_err(), HistoryError::NothingToUndo);
}

#[test]
fn delete_undo_restores_from_trash() {
    let mut m = BackupManager::new();
    m.register_delete("c", "/p/notes.md", ".kuse/trash/7_notes.md", 7);
    let a = m.pop_latest("c").unwrap();
    match &a {
        UndoAction::DeleteRestore { trash_path, original_path, timestamp } => {
            assert_eq!(trash_path, ".kuse/trash/7_notes.md");
            assert_eq!(original_path, "/p/notes.md");
            assert_eq!(*timestamp, 7);
        }
        _ => panic!("expected a delete record"),
    }
    assert_eq!(a.source(), ".kuse/trash/7_notes.md");
    assert_eq!(a.destination(), "/p/notes.md");
    assert!(!a.copies());
    assert_eq!(a.done_message(), "Restored /p/notes.md from trash");
    assert_eq!(a.missing_message(), "Trash file missing: .kuse/trash/7_notes.md");
    assert_eq!(a.failure_message("x"), "Failed to restore from trash: x");
}

#[test]
fn snapshot_undo_copies_backup_over_target() {
    let mut m = BackupManager::new();
    m.record_snapshot("c", "src/f.rs", ".kuse/backups/c/9/f.rs", 9);
    let a = m.pop_latest("c").unwrap();
    match &a {
        UndoAction::ContentRestore { target_path, backup_path, timestamp } => {
            assert_eq!(target_path, "src/f.rs");
            assert_eq!(backup_path, ".kuse/backups/c/9/f.rs");
            assert_eq!(*timestamp, 9);
        }
        _ => panic!("expected a content record"),
    }
    assert!(a.copies());
    assert!(!a.creates_parent());
    assert_eq!(a.source(), ".kuse/backups/c/9/f.rs");
    assert_eq!(a.destination(), "src/f.rs");
    assert_eq!(a.done_message(), "Restored content of src/f.rs");
    assert_eq!(a.missing_message(), "Backup file missing: .kuse/backups/c/9/f.rs");
    assert_eq!(a.failure_message("disk full"), "Failed to restore file: disk full");
}

#[test]
fn latest_record_is_undone_first() {
    let mut m = BackupManager::new();
    m.record_snapshot("c", "f", "b", 1);
    m.register_move("c", "x", "y", 2);
    m.register_delete("c", "p", "t", 3);
    assert_eq!(m.pop_latest("c").unwrap().timestamp(), 3);
    assert_eq!(m.pop_latest("c").unwrap().timestamp(), 2);
    assert_eq!(m.pop_latest("c").unwrap().timestamp(), 1);
    assert_eq!(m.pop_latest("c").unwrap_err(), HistoryError::NothingToUndo);
}

#[test]
fn interleaved_pushes_through_shared_handles_are_all_counted() {
    let shared = std::sync::Arc::new(std::sync::Mutex::new(BackupManager::new()));
    let callers: Vec<_> = (0..4).map(|_| shared.clone()).collect();
    for k in 0..2u64 {
        for (t, m) in callers.iter().enumerate() {
            m.lock().unwrap().register_move("same", "a", "b", t as u64 * 10 + k);
        }
    }
    assert_eq!(shared.lock().unwrap().history_len("same"), 8);
    for k in 0..5u64 {
        for (t, m) in callers.iter().enumerate() {
            m.lock().unwrap().register_delete("same", "p", "q", 100 + t as u64 * 10 + k);
        }
    }
    assert_eq!(shared.lock().unwrap().history_len("same"), 10);
}
