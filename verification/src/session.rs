//! Session and transaction lifecycle.
//!
//! A transaction is open until it is committed or discarded and must never
//! be reused after either; a session must outlive its transactions and
//! refuses work once closed. The collaborator guarantees that a write
//! transaction's mutations become visible to later readers only on an
//! explicit commit; `WriteTx` states that boundary over a store whose
//! countable contents are summarized by a single count.

use crate::errors::WorkflowError;
use vstd::prelude::*;

verus! {

/// The lifecycle of one transaction.
#[derive(Clone, Copy, Debug, PartialEq, Eq, Structural)]
pub enum TxState {
    /// Work may still be submitted; nothing is published yet.
    Open,
    /// The transaction's work was published; the handle must not be reused.
    Committed,
    /// The transaction's work was dropped; the handle must not be reused.
    Discarded,
}

/// A write transaction over a store summarized by its countable contents:
/// `base` is the count a reader saw when the transaction began, `staged`
/// what this transaction has inserted but not yet published.
pub struct WriteTx {
    /// Where the transaction stands in its lifecycle.
    pub state: TxState,
    /// The store's visible count when the transaction began.
    pub base: u64,
    /// Insertions staged inside this transaction, invisible to readers.
    pub staged: u64,
}

impl WriteTx {
    /// Opens a write transaction against a store whose visible count is
    /// `store_count`; nothing is staged yet.
    pub fn begin(store_count: u64) -> (tx: WriteTx)
        ensures
            tx.state is Open,
            tx.base == store_count,
            tx.staged == 0,
    {
        WriteTx { state: TxState::Open, base: store_count, staged: 0 }
    }

    /// Stages `n` insertions inside the transaction. Staged work is not
    /// visible to any reader of the store. A closed transaction refuses the
    /// work and stays exactly as it was.
    pub fn stage(&mut self, n: u64) -> (r: Result<(), WorkflowError>)
        requires
            old(self).staged + n <= u64::MAX,
        ensures
            old(self).state is Open ==> r == Ok::<(), WorkflowError>(())
                && final(self).state is Open
                && final(self).base == old(self).base
                && final(self).staged == old(self).staged + n,
            !(old(self).state is Open) ==> r == Err::<(), WorkflowError>(
                WorkflowError::SessionClosed,
            ) && *final(self) == *old(self),
    {
        match self.state {
            TxState::Open => {
                self.staged = self.staged + n;
                Ok(())
            },
            _ => Err(WorkflowError::SessionClosed),
        }
    }

    /// Commits the transaction: its staged insertions become visible in the
    /// store's count, and the handle is closed for good. A transaction that
    /// is no longer open refuses and leaves the store untouched.
    pub fn commit(&mut self, store_count: &mut u64) -> (r: Result<(), WorkflowError>)
        requires
            old(self).base + old(self).staged <= u64::MAX,
            *old(store_count) == old(self).base,
        ensures
            old(self).state is Open ==> r == Ok::<(), WorkflowError>(())
                && final(self).state is Committed
                && *final(store_count) == old(self).base + old(self).staged,
            !(old(self).state is Open) ==> r == Err::<(), WorkflowError>(
                WorkflowError::SessionClosed,
            ) && *final(self) == *old(self) && *final(store_count) == *old(store_count),
    {
        match self.state {
            TxState::Open => {
                self.state = TxState::Committed;
                *store_count = self.base + self.staged;
                Ok(())
            },
            _ => Err(WorkflowError::SessionClosed),
        }
    }

    /// Discards the transaction: whatever was staged is dropped, and the
    /// store's visible count stays exactly where it was before the
    /// transaction began. This is what happens when a dataset load fails
    /// partway: a later verification read observes the pre-load count.
    pub fn discard(&mut self, store_count: &mut u64)
        ensures
            final(self).state is Discarded,
            final(self).base == old(self).base,
            final(self).staged == old(self).staged,
            *final(store_count) == *old(store_count),
    {
        self.state = TxState::Discarded;
    }
}

/// A session with a count of the transactions still open under it: work is
/// refused once the session closed, and the session itself may close only
/// after its transactions have all closed.
pub struct SessionGuard {
    /// Whether the session is still usable.
    pub open: bool,
    /// How many of its transactions are still open.
    pub active_txs: u64,
}

impl SessionGuard {
    /// Opens a session with no transactions yet.
    pub fn new() -> (s: SessionGuard)
        ensures
            s.open,
            s.active_txs == 0,
    {
        SessionGuard { open: true, active_txs: 0 }
    }

    /// Registers one more open transaction. A closed session refuses with
    /// `SessionClosed` and stays as it was.
    pub fn begin_tx(&mut self) -> (r: Result<(), WorkflowError>)
        requires
            old(self).active_txs < u64::MAX,
        ensures
            old(self).open ==> r == Ok::<(), WorkflowError>(())
                && final(self).open
                && final(self).active_txs == old(self).active_txs + 1,
            !old(self).open ==> r == Err::<(), WorkflowError>(WorkflowError::SessionClosed)
                && *final(self) == *old(self),
    {
        if self.open {
            self.active_txs = self.active_txs + 1;
            Ok(())
        } else {
            Err(WorkflowError::SessionClosed)
        }
    }

    /// Registers that one transaction closed (committed or discarded).
    pub fn end_tx(&mut self)
        requires
            old(self).active_txs > 0,
        ensures
            final(self).open == old(self).open,
            final(self).active_txs == old(self).active_txs - 1,
    {
        self.active_txs = self.active_txs - 1;
    }

    /// Closes the session. This succeeds exactly when the session is still
    /// open and every transaction under it has closed first — the required
    /// ordering of teardown; otherwise the session is left as it was.
    pub fn close(&mut self) -> (r: Result<(), WorkflowError>)
        ensures
            old(self).open && old(self).active_txs == 0 ==> r == Ok::<(), WorkflowError>(())
                && !final(self).open
                && final(self).active_txs == 0,
            !(old(self).open && old(self).active_txs == 0) ==> r == Err::<(), WorkflowError>(
                WorkflowError::SessionClosed,
            ) && *final(self) == *old(self),
    {
        if self.open && self.active_txs == 0 {
            self.open = false;
            Ok(())
        } else {
            Err(WorkflowError::SessionClosed)
        }
    }
}

} // verus!
