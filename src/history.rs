use vstd::prelude::*;
use vstd::string::*;

use crate::action::UndoAction;

verus! {

/// Largest number of records kept for one conversation.
pub const MAX_HISTORY_PER_CONVERSATION: usize = 10;

/// Why no record could be taken from a conversation's history.
#[derive(Debug, Clone, Copy, PartialEq, Eq, Structural)]
pub enum HistoryError {
    /// The conversation has never recorded anything, or was cleared.
    NoHistory,
    /// The conversation is known but its history is empty.
    NothingToUndo,
}

impl HistoryError {
    /// The message relayed to the user for this failure.
    pub fn message(&self) -> (r: String)
        ensures
            r@ == self.spec_message(),
    {
        match self {
            HistoryError::NoHistory => String::from_str("No history for this conversation"),
            HistoryError::NothingToUndo => String::from_str("Nothing to undo"),
        }
    }

    pub open spec fn spec_message(&self) -> Seq<char> {
        match self {
            HistoryError::NoHistory => "No history for this conversation"@,
            HistoryError::NothingToUndo => "Nothing to undo"@,
        }
    }
}

/// A conversation's history after `a` is appended: the oldest record is
/// dropped once the list would grow past the cap.
pub open spec fn capped_push(s: Seq<UndoAction>, a: UndoAction) -> Seq<UndoAction> {
    if s.len() + 1 > MAX_HISTORY_PER_CONVERSATION {
        s.push(a).subrange(1, s.len() as int + 1)
    } else {
        s.push(a)
    }
}

/// A conversation's history after each of `acts` is appended in turn.
pub open spec fn push_all(s: Seq<UndoAction>, acts: Seq<UndoAction>) -> Seq<UndoAction>
    decreases acts.len(),
{
    if acts.len() == 0 {
        s
    } else {
        capped_push(push_all(s, acts.drop_last()), acts.last())
    }
}

/// The history that the log holds for `id`; an unknown conversation has none.
pub open spec fn history_of(m: Map<Seq<char>, Seq<UndoAction>>, id: Seq<char>) -> Seq<UndoAction> {
    if m.contains_key(id) {
        m[id]
    } else {
        Seq::empty()
    }
}

/// The failure, if any, of taking the latest record of `id`.
pub open spec fn pop_error(m: Map<Seq<char>, Seq<UndoAction>>, id: Seq<char>) -> Option<HistoryError> {
    if !m.contains_key(id) {
        Some(HistoryError::NoHistory)
    } else if m[id].len() == 0 {
        Some(HistoryError::NothingToUndo)
    } else {
        None
    }
}

/// The history of one conversation.
struct Conversation {
    id: String,
    actions: Vec<UndoAction>,
}

/// Per-conversation stacks of undo records, oldest first, each holding at
/// most `MAX_HISTORY_PER_CONVERSATION` records.
pub struct ActionLog {
    entries: Vec<Conversation>,
    model: Ghost<Map<Seq<char>, Seq<UndoAction>>>,
}

impl View for ActionLog {
    type V = Map<Seq<char>, Seq<UndoAction>>;

    closed spec fn view(&self) -> Map<Seq<char>, Seq<UndoAction>> {
        self.model@
    }
}

impl ActionLog {
    /// The entries are keyed by distinct identifiers, agree with the model,
    /// and no history is longer than the cap.
    pub closed spec fn wf(&self) -> bool {
        &&& forall|i: int, j: int|
            0 <= i < j < self.entries.len() ==> self.entries[i].id@ != self.entries[j].id@
        &&& forall|i: int|
            0 <= i < self.entries.len() ==> #[trigger] self.model@.contains_key(self.entries[i].id@)
                && self.model@[self.entries[i].id@] == self.entries[i].actions@
        &&& forall|k: Seq<char>|
            #[trigger] self.model@.contains_key(k) ==> exists|i: int|
                0 <= i < self.entries.len() && self.entries[i].id@ == k
        &&& forall|k: Seq<char>|
            #[trigger] self.model@.contains_key(k) ==> self.model@[k].len()
                <= MAX_HISTORY_PER_CONVERSATION
    }

    /// Every history in a well-formed log respects the cap.
    pub proof fn lemma_history_within_cap(&self, id: Seq<char>)
        requires
            self.wf(),
        ensures
            history_of(self@, id).len() <= MAX_HISTORY_PER_CONVERSATION,
    {
    }

    /// An empty log.
    pub fn new() -> (r: Self)
        ensures
            r.wf(),
            r@ == Map::<Seq<char>, Seq<UndoAction>>::empty(),
    {
        ActionLog { entries: Vec::new(), model: Ghost(Map::empty()) }
    }

    /// The position of the entry for `id`, if there is one.
    fn find(&self, id: &str) -> (r: Option<usize>)
        requires
            self.wf(),
        ensures
            match r {
                Some(i) => i < self.entries.len() && self.entries[i as int].id@ == id@,
                None => !self@.contains_key(id@),
            },
    {
        let mut i: usize = 0;
        while i < self.entries.len()
            invariant
                self.wf(),
                i <= self.entries.len(),
                forall|j: int| 0 <= j < i ==> self.entries[j].id@ != id@,
            decreases self.entries.len() - i,
        {
            if str_eq(self.entries[i].id.as_str(), id) {
                return Some(i);
            }
            i = i + 1;
        }
        None
    }

    /// Takes the entry at `i` out of the list, keeping the rest.
    fn take_entry(&mut self, i: usize) -> (c: Conversation)
        requires
            old(self).wf(),
            i < old(self).entries.len(),
        ensures
            c.id@ == old(self).entries[i as int].id@,
            c.actions@ == old(self).entries[i as int].actions@,
            final(self).wf(),
            final(self)@ == old(self)@.remove(c.id@),
    {
        let ghost before = self.entries@;
        let c = self.entries.swap_remove(i);
        let ghost key = c.id@;
        self.model = Ghost(self.model@.remove(key));
        assert forall|k: Seq<char>| #[trigger] self.model@.contains_key(k) implies exists|j: int|
            0 <= j < self.entries.len() && self.entries[j].id@ == k by {
            let j0 = choose|j: int| 0 <= j < before.len() && before[j].id@ == k;
            if j0 == before.len() - 1 {
                assert(self.entries[i as int] == before[j0]);
            } else {
                assert(j0 != i);
                assert(self.entries[j0] == before[j0]);
            }
        }
        assert forall|a: int, b: int|
            0 <= a < b < self.entries.len() implies self.entries[a].id@ != self.entries[b].id@ by {
            let last = before.len() - 1;
            let ia = if a == i { last } else { a };
            let ib = if b == i { last } else { b };
            assert(self.entries[a] == before[ia]);
            assert(self.entries[b] == before[ib]);
        }
        assert forall|a: int| 0 <= a < self.entries.len() implies #[trigger] self.model@.contains_key(
            self.entries[a].id@,
        ) && self.model@[self.entries[a].id@] == self.entries[a].actions@ by {
            let last = before.len() - 1;
            let ia = if a == i { last } else { a };
            assert(self.entries[a] == before[ia]);
            assert(ia != i);
        }
        c
    }

    /// Puts an entry whose identifier the log does not hold back into it.
    fn put_entry(&mut self, c: Conversation)
        requires
            old(self).wf(),
            !old(self)@.contains_key(c.id@),
            c.actions@.len() <= MAX_HISTORY_PER_CONVERSATION,
        ensures
            final(self).wf(),
            final(self)@ == old(self)@.insert(c.id@, c.actions@),
    {
        let ghost before = self.entries@;
        let ghost key = c.id@;
        let ghost acts = c.actions@;
        self.entries.push(c);
        self.model = Ghost(self.model@.insert(key, acts));
        assert forall|k: Seq<char>| #[trigger] self.model@.contains_key(k) implies exists|j: int|
            0 <= j < self.entries.len() && self.entries[j].id@ == k by {
            if k == key {
                assert(self.entries[before.len() as int].id@ == k);
            } else {
                let j0 = choose|j: int| 0 <= j < before.len() && before[j].id@ == k;
                assert(self.entries[j0] == before[j0]);
            }
        }
        assert forall|a: int, b: int|
            0 <= a < b < self.entries.len() implies self.entries[a].id@ != self.entries[b].id@ by {
            assert(self.entries[a] == before[a]);
            if b < before.len() {
                assert(self.entries[b] == before[b]);
            }
        }
        assert forall|a: int| 0 <= a < self.entries.len() implies #[trigger] self.model@.contains_key(
            self.entries[a].id@,
        ) && self.model@[self.entries[a].id@] == self.entries[a].actions@ by {
            if a < before.len() {
                assert(self.entries[a] == before[a]);
            }
        }
    }

    /// Appends `action` to the history of `id`, dropping the oldest record
    /// when the history would exceed the cap.
    pub fn push(&mut self, id: &str, action: UndoAction)
        requires
            old(self).wf(),
        ensures
            final(self).wf(),
            final(self)@ == old(self)@.insert(id@, capped_push(history_of(old(self)@, id@), action)),
    {
        let ghost prev = history_of(self@, id@);
        let mut c = match self.find(id) {
            Some(i) => self.take_entry(i),
            None => Conversation { id: String::from_str(id), actions: Vec::new() },
        };
        assert(c.actions@ == prev);
        c.actions.push(action);
        if c.actions.len() > MAX_HISTORY_PER_CONVERSATION {
            c.actions.remove(0);
            assert(c.actions@ =~= prev.push(action).subrange(1, prev.len() as int + 1));
        }
        self.put_entry(c);
        assert(self@ =~= old(self)@.insert(id@, capped_push(prev, action)));
    }

    /// Removes and returns the most recent record of `id`.
    pub fn pop_latest(&mut self, id: &str) -> (r: Result<UndoAction, HistoryError>)
        requires
            old(self).wf(),
        ensures
            final(self).wf(),
            match pop_error(old(self)@, id@) {
                Some(e) => r == Err::<UndoAction, HistoryError>(e) && final(self)@ == old(self)@,
                None => r == Ok::<UndoAction, HistoryError>(old(self)@[id@].last())
                    && final(self)@ == old(self)@.insert(id@, old(self)@[id@].drop_last()),
            },
    {
        match self.find(id) {
            None => Err(HistoryError::NoHistory),
            Some(i) => {
                let mut c = self.take_entry(i);
                let ghost prev = c.actions@;
                let r = match c.actions.pop() {
                    Some(a) => Ok(a),
                    None => Err(HistoryError::NothingToUndo),
                };
                self.put_entry(c);
                assert(self@ =~= old(self)@.insert(id@, c.actions@));
                proof {
                    if prev.len() == 0 {
                        assert(c.actions@ =~= prev);
                        assert(self@ =~= old(self)@);
                    }
                }
                r
            },
        }
    }

    /// Forgets the history of `id`; forgetting an unknown conversation does
    /// nothing.
    pub fn clear(&mut self, id: &str)
        requires
            old(self).wf(),
        ensures
            final(self).wf(),
            final(self)@ == old(self)@.remove(id@),
    {
        match self.find(id) {
            Some(i) => {
                let _ = self.take_entry(i);
            },
            None => {
                assert(self@ =~= old(self)@.remove(id@));
            },
        }
    }

    /// The number of records held for `id`; none for an unknown conversation.
    pub fn len_of(&self, id: &str) -> (r: usize)
        requires
            self.wf(),
        ensures
            r == history_of(self@, id@).len(),
    {
        match self.find(id) {
            Some(i) => self.entries[i].actions.len(),
            None => 0,
        }
    }

    /// Whether the log knows `id`, even with an empty history.
    pub fn contains(&self, id: &str) -> (r: bool)
        requires
            self.wf(),
        ensures
            r == self@.contains_key(id@),
    {
        self.find(id).is_some()
    }
}

/// Character-wise equality of two strings.
pub fn str_eq(a: &str, b: &str) -> (r: bool)
    ensures
        r == (a@ == b@),
{
    let n = a.unicode_len();
    if n != b.unicode_len() {
        return false;
    }
    let mut i: usize = 0;
    while i < n
        invariant
            n == a@.len(),
            n == b@.len(),
            i <= n,
            forall|j: int| 0 <= j < i ==> a@[j] == b@[j],
        decreases n - i,
    {
        if a.get_char(i) != b.get_char(i) {
            return false;
        }
        i = i + 1;
    }
    assert(a@ =~= b@);
    true
}

} // verus!
