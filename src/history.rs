use std::collections::VecDeque;
use vstd::prelude::*;

use crate::entry::{entries_view, EntryView, Log, LogEntry};

verus! {

/// How many records the history keeps.
pub const HISTORY_CAPACITY: usize = 100;

/// The history after one append: the oldest record leaves first when full.
pub open spec fn appended(s: Seq<EntryView>, e: EntryView) -> Seq<EntryView> {
    if s.len() >= HISTORY_CAPACITY {
        s.drop_first().push(e)
    } else {
        s.push(e)
    }
}

/// The history after appending each of `es` in turn.
pub open spec fn appended_all(s: Seq<EntryView>, es: Seq<EntryView>) -> Seq<EntryView>
    decreases es.len(),
{
    if es.len() == 0 {
        s
    } else {
        appended(appended_all(s, es.drop_last()), es.last())
    }
}

/// The most recent `HISTORY_CAPACITY` records of `s`, in order.
pub open spec fn latest(s: Seq<EntryView>) -> Seq<EntryView> {
    if s.len() > HISTORY_CAPACITY {
        s.subrange(s.len() - HISTORY_CAPACITY, s.len() as int)
    } else {
        s
    }
}

/// Appending any records to a history keeps exactly the most recent
/// `HISTORY_CAPACITY` of everything appended so far, in arrival order.
pub proof fn lemma_history_keeps_latest(s: Seq<EntryView>, es: Seq<EntryView>)
    requires
        s.len() <= HISTORY_CAPACITY,
    ensures
        appended_all(s, es) == latest(s + es),
    decreases es.len(),
{
    if es.len() == 0 {
        assert(s + es =~= s);
    } else {
        let front = es.drop_last();
        lemma_history_keeps_latest(s, front);
        assert((s + front).push(es.last()) =~= s + es);
    }
}

/// From an empty history, more than `HISTORY_CAPACITY` appends leave exactly
/// the last `HISTORY_CAPACITY` records, oldest first.
pub proof fn lemma_history_bounded_fifo(es: Seq<EntryView>)
    requires
        es.len() > HISTORY_CAPACITY,
    ensures
        appended_all(Seq::empty(), es) == es.subrange(
            es.len() - HISTORY_CAPACITY,
            es.len() as int,
        ),
        appended_all(Seq::empty(), es).len() == HISTORY_CAPACITY,
{
    lemma_history_keeps_latest(Seq::empty(), es);
    assert(Seq::<EntryView>::empty() + es =~= es);
}

/// The bounded, oldest-first log of past exchanges.
pub struct HistoryStore {
    entries: VecDeque<LogEntry>,
}

impl View for HistoryStore {
    type V = Seq<EntryView>;

    closed spec fn view(&self) -> Seq<EntryView> {
        entries_view(self.entries@)
    }
}

impl HistoryStore {
    /// The store never holds more than its capacity.
    pub open spec fn wf(&self) -> bool {
        self@.len() <= HISTORY_CAPACITY
    }

    /// An empty history.
    pub fn new() -> (r: HistoryStore)
        ensures
            r.wf(),
            r@ == Seq::<EntryView>::empty(),
    {
        let r = HistoryStore { entries: VecDeque::new() };
        assert(r@ =~= Seq::<EntryView>::empty());
        r
    }

    /// The number of records held.
    pub fn len(&self) -> (r: usize)
        ensures
            r == self@.len(),
    {
        self.entries.len()
    }

    /// Adds a record at the end, first evicting the oldest one when full.
    pub fn append(&mut self, entry: LogEntry)
        requires
            old(self).wf(),
        ensures
            final(self).wf(),
            final(self)@ == appended(old(self)@, entry@),
    {
        if self.entries.len() >= HISTORY_CAPACITY {
            let _ = self.entries.pop_front();
        }
        self.entries.push_back(entry);
        assert(self@ =~= appended(old(self)@, entry@));
    }

    /// A copy of every record held, oldest first.
    pub fn snapshot(&self) -> (r: Vec<LogEntry>)
        ensures
            entries_view(r@) == self@,
    {
        let mut r: Vec<LogEntry> = Vec::new();
        let mut i: usize = 0;
        while i < self.entries.len()
            invariant
                i <= self.entries@.len(),
                r@.len() == i,
                forall|j: int| 0 <= j < i ==> (#[trigger] r@[j])@ == self.entries@[j]@,
            decreases self.entries@.len() - i,
        {
            let e = self.entries[i].duplicate();
            r.push(e);
            i = i + 1;
        }
        assert(entries_view(r@) =~= entries_view(self.entries@));
        r
    }

    /// The snapshot wrapped as the log that observers are shown.
    pub fn log(&self) -> (r: Log)
        ensures
            r@ == self@,
    {
        Log { requests: self.snapshot() }
    }

    /// Empties the history at once.
    pub fn clear(&mut self)
        ensures
            final(self).wf(),
            final(self)@ == Seq::<EntryView>::empty(),
    {
        self.entries.clear();
        assert(self@ =~= Seq::<EntryView>::empty());
    }
}

/// A snapshot taken right after `clear` is empty.
pub proof fn lemma_clear_then_snapshot_empty(cleared: HistoryStore, snap: Seq<LogEntry>)
    requires
        cleared@ == Seq::<EntryView>::empty(),
        entries_view(snap) == cleared@,
    ensures
        snap.len() == 0,
{
    assert(entries_view(snap).len() == snap.len());
}

} // verus!
