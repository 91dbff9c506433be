//! Contribution ledger: the per-session record of contribution status, used
//! for audit and to prevent re-contribution. An entry moves from `Pending`
//! to exactly one of `Finished` or `Expired` and never changes again.

use vstd::prelude::*;

verus! {

/// Status of one session's contribution attempt.
#[derive(Clone, Copy, PartialEq, Eq, Structural, Debug)]
pub enum LedgerStatus {
    /// The session may still contribute.
    Pending,
    /// The session's contribution was accepted and recorded.
    Finished,
    /// The session's attempt was rejected; it may not contribute again.
    Expired,
}

/// One session's ledger record.
#[derive(Clone, Copy, PartialEq, Eq, Structural, Debug)]
pub struct LedgerEntry {
    /// The unique participant identifier the record is keyed by.
    pub session: u64,
    /// The session's current status.
    pub status: LedgerStatus,
}

/// The number of entries in state `Finished`.
pub open spec fn count_finished(s: Seq<LedgerEntry>) -> nat
    decreases s.len(),
{
    if s.len() == 0 {
        0
    } else {
        count_finished(s.drop_last()) + if s.last().status is Finished { 1nat } else { 0nat }
    }
}

/// The index of the entry for `session`, if one exists.
pub open spec fn index_of(s: Seq<LedgerEntry>, session: u64) -> int {
    choose|i: int| 0 <= i < s.len() && s[i].session == session
}

/// Whether an entry for `session` exists.
pub open spec fn has_entry(s: Seq<LedgerEntry>, session: u64) -> bool {
    exists|i: int| 0 <= i < s.len() && s[i].session == session
}

/// The recorded status of `session`, if it has an entry.
pub open spec fn status_of(s: Seq<LedgerEntry>, session: u64) -> Option<LedgerStatus> {
    if has_entry(s, session) {
        Some(s[index_of(s, session)].status)
    } else {
        None
    }
}

/// Sessions are unique: no participant has two records.
pub open spec fn sessions_unique(s: Seq<LedgerEntry>) -> bool {
    forall|i: int, j: int|
        0 <= i < s.len() && 0 <= j < s.len() && i != j ==> #[trigger] s[i].session
            != #[trigger] s[j].session
}

/// The records after one session's entry is set to `to`.
pub open spec fn mark_model(s: Seq<LedgerEntry>, session: u64, to: LedgerStatus) -> Seq<
    LedgerEntry,
> {
    s.update(index_of(s, session), LedgerEntry { session, status: to })
}

/// Per-session contribution records. Backing-store durability is the
/// external storage backend's concern; a failed backend write surfaces to
/// the pipeline as a storage error and leaves the records unchanged.
pub struct Ledger {
    entries: Vec<LedgerEntry>,
}

impl Ledger {
    /// The records, in registration order.
    pub closed spec fn entries(self) -> Seq<LedgerEntry> {
        self.entries@
    }

    /// No participant has two records.
    pub open spec fn wf(self) -> bool {
        sessions_unique(self.entries())
    }

    /// An empty ledger.
    pub fn new() -> (r: Ledger)
        ensures
            r.wf(),
            r.entries() =~= Seq::<LedgerEntry>::empty(),
    {
        Ledger { entries: Vec::new() }
    }

    /// Looks up the recorded status of `session`.
    pub fn status(&self, session: u64) -> (r: Option<LedgerStatus>)
        requires
            self.wf(),
        ensures
            r == status_of(self.entries(), session),
    {
        let mut i: usize = 0;
        while i < self.entries.len()
            invariant
                self.wf(),
                i <= self.entries.len(),
                forall|j: int| 0 <= j < i ==> self.entries()[j].session != session,
            decreases self.entries.len() - i,
        {
            if self.entries[i].session == session {
                return Some(self.entries[i].status);
            }
            i = i + 1;
        }
        proof {
            assert(!has_entry(self.entries(), session));
        }
        None
    }

    /// Records a new session as `Pending`. Registration happens at login,
    /// before the session's one contribute attempt.
    pub fn register(&mut self, session: u64)
        requires
            old(self).wf(),
            !has_entry(old(self).entries(), session),
        ensures
            final(self).wf(),
            final(self).entries() =~= old(self).entries().push(
                LedgerEntry { session, status: LedgerStatus::Pending },
            ),
            count_finished(final(self).entries()) == count_finished(old(self).entries()),
    {
        self.entries.push(LedgerEntry { session, status: LedgerStatus::Pending });
        proof {
            lemma_count_finished_push_pending(old(self).entries(), session);
        }
    }

    /// Sets the status of `session` to `to`. The entry must still be
    /// `Pending`: statuses are monotonic, no record changes twice.
    fn mark(&mut self, session: u64, to: LedgerStatus)
        requires
            old(self).wf(),
            status_of(old(self).entries(), session) == Some(LedgerStatus::Pending),
        ensures
            final(self).wf(),
            final(self).entries() =~= old(self).entries().update(
                index_of(old(self).entries(), session),
                LedgerEntry { session, status: to },
            ),
            status_of(final(self).entries(), session) == Some(to),
    {
        let mut i: usize = 0;
        while i < self.entries.len()
            invariant
                *self == *old(self),
                old(self).wf(),
                status_of(old(self).entries(), session) == Some(LedgerStatus::Pending),
                i <= self.entries.len(),
                forall|j: int| 0 <= j < i ==> self.entries()[j].session != session,
            decreases self.entries.len() - i,
        {
            if self.entries[i].session == session {
                proof {
                    let s0 = old(self).entries();
                    assert(s0[i as int].session == session);
                    assert(has_entry(s0, session));
                    let k = index_of(s0, session);
                    assert(0 <= k < s0.len() && s0[k].session == session);
                    assert(k == i as int);
                }
                self.entries.set(i, LedgerEntry { session, status: to });
                proof {
                    let s0 = old(self).entries();
                    let e = self.entries@;
                    assert(e =~= s0.update(i as int, LedgerEntry { session, status: to }));
                    assert forall|a: int, b: int|
                        0 <= a < e.len() && 0 <= b < e.len() && a != b implies #[trigger] e[
                        a].session != #[trigger] e[b].session by {
                        assert(e[a].session == s0[a].session);
                        assert(e[b].session == s0[b].session);
                    }
                    assert(e[i as int].session == session);
                    assert(has_entry(e, session));
                    let j = index_of(e, session);
                    assert(0 <= j < e.len() && e[j].session == session);
                    assert(j == i as int);
                    assert(e[j].status == to);
                }
                return;
            }
            i = i + 1;
        }
        proof {
            assert(!has_entry(self.entries(), session));
        }
    }

    /// Marks the session's record `Expired` after a rejected attempt.
    pub fn mark_expired(&mut self, session: u64)
        requires
            old(self).wf(),
            status_of(old(self).entries(), session) == Some(LedgerStatus::Pending),
        ensures
            final(self).wf(),
            final(self).entries() =~= old(self).entries().update(
                index_of(old(self).entries(), session),
                LedgerEntry { session, status: LedgerStatus::Expired },
            ),
            status_of(final(self).entries(), session) == Some(LedgerStatus::Expired),
    {
        self.mark(session, LedgerStatus::Expired);
    }

    /// Marks the session's record `Finished` after an accepted attempt.
    pub fn mark_finished(&mut self, session: u64)
        requires
            old(self).wf(),
            status_of(old(self).entries(), session) == Some(LedgerStatus::Pending),
        ensures
            final(self).wf(),
            final(self).entries() =~= old(self).entries().update(
                index_of(old(self).entries(), session),
                LedgerEntry { session, status: LedgerStatus::Finished },
            ),
            status_of(final(self).entries(), session) == Some(LedgerStatus::Finished),
    {
        self.mark(session, LedgerStatus::Finished);
    }
}

/// Updating one entry changes the `Finished` count by the contribution of
/// that entry alone.
pub proof fn lemma_count_finished_update(s: Seq<LedgerEntry>, i: int, e: LedgerEntry)
    requires
        0 <= i < s.len(),
    ensures
        count_finished(s.update(i, e)) + (if s[i].status is Finished { 1nat } else { 0nat })
            == count_finished(s) + (if e.status is Finished { 1nat } else { 0nat }),
    decreases s.len(),
{
    if i == s.len() - 1 {
        assert(s.update(i, e).drop_last() =~= s.drop_last());
    } else {
        assert(s.update(i, e).drop_last() =~= s.drop_last().update(i, e));
        lemma_count_finished_update(s.drop_last(), i, e);
    }
}

/// Marking a `Pending` record keeps sessions unique, sets exactly that
/// session's status, and moves the `Finished` count by the new status'
/// contribution.
pub proof fn lemma_mark_model(s: Seq<LedgerEntry>, session: u64, to: LedgerStatus)
    requires
        sessions_unique(s),
        status_of(s, session) == Some(LedgerStatus::Pending),
    ensures
        sessions_unique(mark_model(s, session, to)),
        mark_model(s, session, to).len() == s.len(),
        status_of(mark_model(s, session, to), session) == Some(to),
        count_finished(mark_model(s, session, to)) == count_finished(s) + (
        if to is Finished {
            1nat
        } else {
            0nat
        }),
{
    assert(has_entry(s, session));
    let k = index_of(s, session);
    assert(0 <= k < s.len() && s[k].session == session);
    assert(s[k].status == LedgerStatus::Pending);
    let e = mark_model(s, session, to);
    assert forall|a: int, b: int| 0 <= a < e.len() && 0 <= b < e.len() && a != b implies #[trigger]
    e[a].session != #[trigger] e[b].session by {
        assert(e[a].session == s[a].session);
        assert(e[b].session == s[b].session);
    }
    assert(e[k].session == session);
    assert(has_entry(e, session));
    let j = index_of(e, session);
    assert(0 <= j < e.len() && e[j].session == session);
    assert(j == k);
    assert(e[j].status == to);
    lemma_count_finished_update(s, k, LedgerEntry { session, status: to });
}

/// Marking one session's record leaves every other session's status as it
/// was.
pub proof fn lemma_mark_model_preserves_others(
    s: Seq<LedgerEntry>,
    session: u64,
    to: LedgerStatus,
    other: u64,
)
    requires
        sessions_unique(s),
        status_of(s, session) == Some(LedgerStatus::Pending),
        other != session,
    ensures
        status_of(mark_model(s, session, to), other) == status_of(s, other),
{
    assert(has_entry(s, session));
    let k = index_of(s, session);
    assert(0 <= k < s.len() && s[k].session == session);
    let e = mark_model(s, session, to);
    if has_entry(s, other) {
        let j = index_of(s, other);
        assert(0 <= j < s.len() && s[j].session == other);
        assert(j != k);
        assert(e[j] == s[j]);
        assert(has_entry(e, other));
        let j2 = index_of(e, other);
        assert(0 <= j2 < e.len() && e[j2].session == other);
        assert(j2 != k);
        assert(s[j2].session == other);
        assert(j2 == j);
    } else {
        assert forall|i: int| 0 <= i < e.len() implies #[trigger] e[i].session != other by {
            assert(s[i].session == if i == k {
                session
            } else {
                e[i].session
            });
        }
        assert(!has_entry(e, other));
    }
}

/// Appending a `Pending` entry leaves the `Finished` count unchanged.
pub proof fn lemma_count_finished_push_pending(s: Seq<LedgerEntry>, session: u64)
    ensures
        count_finished(s.push(LedgerEntry { session, status: LedgerStatus::Pending }))
            == count_finished(s),
{
    assert(s.push(LedgerEntry { session, status: LedgerStatus::Pending }).drop_last() =~= s);
}

} // verus!
