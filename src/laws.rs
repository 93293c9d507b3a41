//! Facts about the history that hold across several operations.
use vstd::prelude::*;

use crate::action::UndoAction;
use crate::history::{capped_push, history_of, pop_error, push_all, HistoryError, MAX_HISTORY_PER_CONVERSATION};
use crate::manager::{is_content_record, is_delete_record, is_move_record};

verus! {

/// A history never grows past the cap: appending to a full history evicts its
/// oldest record and keeps the new one as the newest.
pub proof fn lemma_push_respects_cap(s: Seq<UndoAction>, a: UndoAction)
    requires
        s.len() <= MAX_HISTORY_PER_CONVERSATION,
    ensures
        capped_push(s, a).len() <= MAX_HISTORY_PER_CONVERSATION,
        capped_push(s, a).last() == a,
        s.len() < MAX_HISTORY_PER_CONVERSATION ==> capped_push(s, a) == s.push(a),
        s.len() == MAX_HISTORY_PER_CONVERSATION ==> capped_push(s, a) == s.subrange(
            1,
            s.len() as int,
        ).push(a),
{
    if s.len() == MAX_HISTORY_PER_CONVERSATION {
        assert(capped_push(s, a) =~= s.subrange(1, s.len() as int).push(a));
    }
}

/// Pushes applied one after another lose no record: the history ends with
/// the newest records of the old history followed by all of the pushes, as
/// many as the cap allows.
pub proof fn lemma_pushes_are_kept(s: Seq<UndoAction>, acts: Seq<UndoAction>)
    requires
        s.len() <= MAX_HISTORY_PER_CONVERSATION,
    ensures
        push_all(s, acts).len() == if s.len() + acts.len() <= MAX_HISTORY_PER_CONVERSATION {
            s.len() + acts.len()
        } else {
            MAX_HISTORY_PER_CONVERSATION as nat
        },
        push_all(s, acts) == (s + acts).subrange(
            (s.len() + acts.len()) - push_all(s, acts).len(),
            (s.len() + acts.len()) as int,
        ),
    decreases acts.len(),
{
    let total = s.len() + acts.len();
    if acts.len() == 0 {
        assert(s + acts =~= s);
        assert(s.subrange(0, s.len() as int) =~= s);
    } else {
        let prefix = acts.drop_last();
        let a = acts.last();
        lemma_pushes_are_kept(s, prefix);
        let p = push_all(s, prefix);
        let whole = s + acts;
        let before = s + prefix;
        assert(whole =~= before.push(a));
        let lo = (total - 1) - p.len();
        assert(p == before.subrange(lo, total - 1));
        if p.len() + 1 > MAX_HISTORY_PER_CONVERSATION {
            assert(capped_push(p, a) =~= whole.subrange(lo + 1, total as int));
        } else {
            assert(capped_push(p, a) =~= whole.subrange(lo, total as int));
        }
    }
}

/// Taking a record from an unknown conversation fails otherwise than taking
/// one from a known conversation whose history is empty.
pub proof fn lemma_unknown_differs_from_empty(
    m: Map<Seq<char>, Seq<UndoAction>>,
    unknown: Seq<char>,
    empty: Seq<char>,
)
    requires
        !m.contains_key(unknown),
        m.contains_key(empty),
        m[empty].len() == 0,
    ensures
        pop_error(m, unknown) == Some(HistoryError::NoHistory),
        pop_error(m, empty) == Some(HistoryError::NothingToUndo),
        pop_error(m, unknown) != pop_error(m, empty),
{
}

/// On a conversation with no records, one recorded action is what the next
/// undo takes, and an undo right after it finds nothing to undo.
pub proof fn lemma_single_record_undone_once(m: Map<Seq<char>, Seq<UndoAction>>, id: Seq<char>, a: UndoAction)
    requires
        history_of(m, id).len() == 0,
    ensures
        ({
            let pushed = m.insert(id, capped_push(history_of(m, id), a));
            let popped = pushed.insert(id, pushed[id].drop_last());
            &&& pop_error(pushed, id) == None::<HistoryError>
            &&& pushed[id].last() == a
            &&& pop_error(popped, id) == Some(HistoryError::NothingToUndo)
        }),
{
    let pushed = m.insert(id, capped_push(history_of(m, id), a));
    assert(pushed[id] =~= seq![a]);
}

/// Undoing a snapshot copies the pristine bytes from the snapshot back over
/// the overwritten file.
pub proof fn lemma_snapshot_undo_restores(a: UndoAction, target: Seq<char>, backup: Seq<char>, ts: u64)
    requires
        is_content_record(a, target, backup, ts),
    ensures
        a.spec_copies(),
        a.spec_source() == backup,
        a.spec_destination() == target,
{
}

/// Undoing a move from `from` to `to` moves the file from `to` back to
/// `from`.
pub proof fn lemma_move_undo_relocates(a: UndoAction, from: Seq<char>, to: Seq<char>, ts: u64)
    requires
        is_move_record(a, from, to, ts),
    ensures
        !a.spec_copies(),
        a.spec_source() == to,
        a.spec_destination() == from,
{
}

/// Undoing a delete moves the trashed file back to where it was, so the trash
/// entry is gone afterwards.
pub proof fn lemma_delete_undo_restores(a: UndoAction, original: Seq<char>, trash: Seq<char>, ts: u64)
    requires
        is_delete_record(a, original, trash, ts),
    ensures
        !a.spec_copies(),
        a.spec_source() == trash,
        a.spec_destination() == original,
{
}

/// After a conversation's history is cleared, taking a record from it fails
/// as for an unknown conversation; other conversations keep their history.
pub proof fn lemma_clear_forgets(m: Map<Seq<char>, Seq<UndoAction>>, id: Seq<char>, other: Seq<char>)
    requires
        other != id,
    ensures
        pop_error(m.remove(id), id) == Some(HistoryError::NoHistory),
        history_of(m.remove(id), other) == history_of(m, other),
{
}

} // verus!
