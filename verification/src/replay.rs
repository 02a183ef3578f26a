use vstd::prelude::*;

verus! {

/// The broker-side bookkeeping the session layer relies on, reduced to
/// what matters for replay: for one consumer group reading one partition
/// log, the broker stores a committed position — the offset just past the
/// last acknowledged message.  The broker owns this state; the process
/// only ever changes it through `commit`.
pub struct GroupLedger {
    pub committed: u64,
}

/// The replay state of one open session: `next` is the offset of the first
/// message the next poll will deliver.
pub struct SessionReplay {
    pub next: u64,
}

impl GroupLedger {
    /// A group that has never committed: consumption falls back to the
    /// earliest offset, 0.
    pub fn new() -> (g: GroupLedger)
        ensures
            g.committed == 0,
    {
        GroupLedger { committed: 0 }
    }

    /// Opening a session resumes exactly at the group's committed
    /// position; opening consumes nothing.
    pub fn open_session(&self) -> (s: SessionReplay)
        ensures
            s.next == self.committed,
    {
        SessionReplay { next: self.committed }
    }
}

impl SessionReplay {
    /// One poll against a log that currently ends at `log_len` delivers
    /// exactly the offsets from `next` up to `log_len` — an empty batch
    /// when nothing new arrived, which is a normal result — and advances
    /// the session past what it delivered.
    pub fn poll_once(&mut self, log_len: u64) -> (batch: (u64, u64))
        ensures
            batch.0 == old(self).next,
            batch.1 == (if log_len >= old(self).next {
                log_len
            } else {
                old(self).next
            }),
            final(self).next == batch.1,
    {
        let start = self.next;
        let end = if log_len >= self.next {
            log_len
        } else {
            self.next
        };
        self.next = end;
        (start, end)
    }

    /// Commits everything the session has polled so far: the group's
    /// committed position becomes the session's position.  Called after
    /// processing, not before; a crash between poll and commit simply
    /// leaves the ledger where it was.
    pub fn commit(&self, g: &mut GroupLedger)
        ensures
            final(g).committed == self.next,
    {
        g.committed = self.next;
    }
}

/// Law: a poll followed by a commit is replay-free.  When the end of the
/// polled batch has been committed, a session re-opened for the same group
/// starts strictly after every offset that batch delivered: committed
/// messages are never delivered again.  Only a commit that never happened
/// — a crash between poll and commit — leads to redelivery, which
/// at-least-once delivery accepts.
pub proof fn lemma_no_redelivery_after_commit(
    batch: (u64, u64),
    g: GroupLedger,
    reopened: SessionReplay,
    o: u64,
)
    requires
        g.committed == batch.1,
        reopened.next == g.committed,
        batch.0 <= o < batch.1,
    ensures
        o < reopened.next,
{
}

} // verus!
