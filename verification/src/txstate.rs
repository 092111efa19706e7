//! The single-slot tracker for the one outstanding remote transaction.
//!
//! A remote operation is asynchronous: the invocation that submits it and
//! the invocation that learns its outcome are separated by unbounded real
//! time. The slot is the sole synchronization primitive: reserving it
//! fails while an operation is in flight, so at most one remote action is
//! ever outstanding.

use vstd::prelude::*;
use crate::error::ContractError;

verus! {

/// Where the slot stands: free, holding an in-flight operation, or free
/// again but remembering the last failure until the next reservation.
#[derive(Clone, Debug, PartialEq, Eq)]
pub enum TxStateStatus {
    Idle,
    InProgress,
    Error(String),
}

/// The payload of one remote operation, consumed exactly once by the
/// completion or failure handler.
#[derive(Clone, Debug, PartialEq, Eq)]
pub enum Transaction {
    Delegate {
        interchain_account_id: String,
        denom: String,
        items: Vec<(String, u128)>,
    },
    Undelegate {
        batch_id: u128,
        interchain_account_id: String,
        denom: String,
        items: Vec<(String, u128)>,
    },
    ClaimRewards {
        interchain_account_id: String,
        validator: String,
    },
    Transfer {
        interchain_account_id: String,
        recipient: String,
        denom: String,
        amount: u128,
    },
}

/// The slot's record: its status, the pending payload, whom to notify,
/// and the transport sequence id correlating the eventual completion.
#[derive(Clone, Debug, PartialEq, Eq)]
pub struct TxState {
    pub status: TxStateStatus,
    pub seq_id: Option<u64>,
    pub reply_to: Option<String>,
    pub transaction: Option<Transaction>,
}

impl TxState {
    /// The slot's invariant: a payload is held exactly while an operation
    /// is in flight, and the notification target and sequence id only then.
    pub open spec fn wf(self) -> bool {
        &&& self.transaction is Some <==> self.status is InProgress
        &&& self.reply_to is Some ==> self.status is InProgress
        &&& self.seq_id is Some ==> self.status is InProgress
    }

    /// A free slot with nothing recorded.
    pub fn new_idle() -> (r: TxState)
        ensures
            r.wf(),
            r.status is Idle,
            r.seq_id is None,
            r.reply_to is None,
            r.transaction is None,
    {
        TxState { status: TxStateStatus::Idle, seq_id: None, reply_to: None, transaction: None }
    }

    /// Reserves the slot for one operation. Fails, changing nothing, while
    /// another operation is in flight; otherwise records the payload and
    /// the notification target and clears the sequence id. A remembered
    /// failure is overwritten by a successful reservation.
    pub fn reserve(&mut self, transaction: Transaction, reply_to: String) -> (r: Result<
        (),
        ContractError,
    >)
        requires
            old(self).wf(),
        ensures
            final(self).wf(),
            r is Err <==> old(self).status is InProgress,
            r matches Err(e) ==> e is AlreadyInProgress && *final(self) == *old(self),
            r is Ok ==> final(self).status is InProgress && final(self).transaction == Some(
                transaction,
            ) && final(self).reply_to == Some(reply_to) && final(self).seq_id is None,
    {
        match self.status {
            TxStateStatus::InProgress => Err(ContractError::AlreadyInProgress),
            _ => {
                *self = TxState {
                    status: TxStateStatus::InProgress,
                    seq_id: None,
                    reply_to: Some(reply_to),
                    transaction: Some(transaction),
                };
                Ok(())
            },
        }
    }

    /// Records the transport's sequence id once the envelope is accepted;
    /// everything else stays as reserved.
    pub fn attach_sequence(&mut self, id: u64)
        requires
            old(self).wf(),
            old(self).status is InProgress,
        ensures
            final(self).wf(),
            final(self).status == old(self).status,
            final(self).seq_id == Some(id),
            final(self).reply_to == old(self).reply_to,
            final(self).transaction == old(self).transaction,
    {
        self.seq_id = Some(id);
    }

    /// Consumes the settled operation: hands back the payload and the
    /// notification target and frees the slot.
    pub fn resolve_success(&mut self) -> (r: (Transaction, Option<String>))
        requires
            old(self).wf(),
            old(self).status is InProgress,
        ensures
            final(self).wf(),
            final(self).status is Idle,
            final(self).seq_id is None,
            final(self).reply_to is None,
            final(self).transaction is None,
            Some(r.0) == old(self).transaction,
            r.1 == old(self).reply_to,
    {
        let mut taken = TxState::new_idle();
        core::mem::swap(self, &mut taken);
        match (taken.transaction, taken.reply_to) {
            (Some(t), reply) => (t, reply),
            (None, _) => {
                proof {
                    assert(false);
                }
                unreached()
            },
        }
    }

    /// Records a remote failure or timeout: frees the slot but keeps the
    /// failure visible in the status until the next successful
    /// reservation, and hands back whom to notify.
    pub fn resolve_failure(&mut self, error: String) -> (reply: Option<String>)
        requires
            old(self).wf(),
            old(self).status is InProgress,
        ensures
            final(self).wf(),
            final(self).status == TxStateStatus::Error(error),
            final(self).seq_id is None,
            final(self).reply_to is None,
            final(self).transaction is None,
            reply == old(self).reply_to,
    {
        let mut taken = TxState {
            status: TxStateStatus::Error(error),
            seq_id: None,
            reply_to: None,
            transaction: None,
        };
        core::mem::swap(self, &mut taken);
        taken.reply_to
    }
}

} // verus!
