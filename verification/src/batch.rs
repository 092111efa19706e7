//! The unbonding-batch lifecycle.
//!
//! Withdrawal requests are grouped into time-windowed batches. A batch
//! moves through its statuses strictly forward; when its remote unbonding
//! settles, the realized slashing ratio is recorded exactly once and later
//! prices every claim of the batch uniformly.

use vstd::prelude::*;
use crate::numbers::{FixedRatio, RATIO_FRACTIONAL};

verus! {

/// Where a batch stands in its life, strictly forward only.
#[derive(Clone, Copy, Debug, PartialEq, Eq, Structural)]
pub enum UnbondBatchStatus {
    New,
    Collecting,
    Submitted,
    Unbonding,
    Unbonded,
    WithdrawalInProgress,
    Withdrawn,
}

/// The rank of a status in the batch's forward-only order.
pub open spec fn status_rank(s: UnbondBatchStatus) -> int {
    match s {
        UnbondBatchStatus::New => 0,
        UnbondBatchStatus::Collecting => 1,
        UnbondBatchStatus::Submitted => 2,
        UnbondBatchStatus::Unbonding => 3,
        UnbondBatchStatus::Unbonded => 4,
        UnbondBatchStatus::WithdrawalInProgress => 5,
        UnbondBatchStatus::Withdrawn => 6,
    }
}

/// One unbonding batch: what was requested, what came back, and the
/// realized slashing ratio once its unbonding settled.
#[derive(Clone, Debug, PartialEq, Eq)]
pub struct UnbondBatch {
    pub id: u128,
    pub status: UnbondBatchStatus,
    pub total_requested: u128,
    pub total_unbonded: Option<u128>,
    pub slashing_effect: Option<FixedRatio>,
    pub created_at: u64,
    pub unbond_at: Option<u64>,
}

impl UnbondBatch {
    /// The batch's invariant: settlement data exists exactly from the
    /// unbonded status on, and the recorded ratio never exceeds one.
    pub open spec fn wf(self) -> bool {
        &&& status_rank(self.status) >= status_rank(UnbondBatchStatus::Unbonded)
            <==> self.slashing_effect is Some
        &&& status_rank(self.status) >= status_rank(UnbondBatchStatus::Unbonded)
            <==> self.total_unbonded is Some
        &&& self.slashing_effect matches Some(e) ==> e.is_proper()
    }

    /// Opens a fresh batch for the new window.
    pub fn new(id: u128, created_at: u64) -> (b: UnbondBatch)
        ensures
            b.wf(),
            b.id == id,
            b.status is New,
            b.total_requested == 0,
            b.total_unbonded is None,
            b.slashing_effect is None,
            b.created_at == created_at,
            b.unbond_at is None,
    {
        UnbondBatch {
            id,
            status: UnbondBatchStatus::New,
            total_requested: 0,
            total_unbonded: None,
            slashing_effect: None,
            created_at,
            unbond_at: None,
        }
    }

    /// Opens the batch for withdrawal requests.
    pub fn start_collecting(&mut self)
        requires
            old(self).wf(),
            old(self).status is New,
        ensures
            final(self).wf(),
            final(self).status is Collecting,
            status_rank(final(self).status) > status_rank(old(self).status),
            *final(self) == (UnbondBatch { status: UnbondBatchStatus::Collecting, ..*old(self) }),
    {
        self.status = UnbondBatchStatus::Collecting;
    }

    /// Adds one withdrawal request to the open batch.
    pub fn add_request(&mut self, amount: u128)
        requires
            old(self).wf(),
            old(self).status is Collecting,
            old(self).total_requested + amount <= u128::MAX,
        ensures
            final(self).wf(),
            final(self).total_requested == old(self).total_requested + amount,
            *final(self) == (UnbondBatch {
                total_requested: final(self).total_requested,
                ..*old(self)
            }),
    {
        self.total_requested = self.total_requested + amount;
    }

    /// Closes the window: the batch's total is now fixed and the
    /// aggregated undelegation may be issued.
    pub fn close(&mut self)
        requires
            old(self).wf(),
            old(self).status is Collecting,
        ensures
            final(self).wf(),
            final(self).status is Submitted,
            status_rank(final(self).status) > status_rank(old(self).status),
            *final(self) == (UnbondBatch { status: UnbondBatchStatus::Submitted, ..*old(self) }),
    {
        self.status = UnbondBatchStatus::Submitted;
    }

    /// Records that the remote undelegation was dispatched and accepted;
    /// the batch now waits out the unbonding period. A failed remote
    /// undelegation leaves the batch submitted for manual resubmission.
    pub fn start_unbonding(&mut self, unbond_at: u64)
        requires
            old(self).wf(),
            old(self).status is Submitted,
        ensures
            final(self).wf(),
            final(self).status is Unbonding,
            status_rank(final(self).status) > status_rank(old(self).status),
            final(self).unbond_at == Some(unbond_at),
            *final(self) == (UnbondBatch {
                status: UnbondBatchStatus::Unbonding,
                unbond_at: Some(unbond_at),
                ..*old(self)
            }),
    {
        self.status = UnbondBatchStatus::Unbonding;
        self.unbond_at = Some(unbond_at);
    }

    /// Settles the batch: records what came back and, exactly once, the
    /// realized slashing ratio `total_unbonded / total_requested`,
    /// saturated at one (one means no loss).
    pub fn settle_unbonded(&mut self, total_unbonded: u128)
        requires
            old(self).wf(),
            old(self).status is Unbonding,
            old(self).total_requested > 0,
        ensures
            final(self).wf(),
            final(self).status is Unbonded,
            status_rank(final(self).status) > status_rank(old(self).status),
            final(self).total_unbonded == Some(total_unbonded),
            final(self).slashing_effect matches Some(e) && e.atomics == (
                if total_unbonded >= old(self).total_requested {
                    RATIO_FRACTIONAL as int
                } else {
                    total_unbonded * RATIO_FRACTIONAL / (old(self).total_requested as int)
                }
            ),
            final(self).id == old(self).id,
            final(self).total_requested == old(self).total_requested,
            final(self).created_at == old(self).created_at,
            final(self).unbond_at == old(self).unbond_at,
    {
        let effect = FixedRatio::from_ratio_capped(total_unbonded, self.total_requested);
        self.status = UnbondBatchStatus::Unbonded;
        self.total_unbonded = Some(total_unbonded);
        self.slashing_effect = Some(effect);
    }

    /// Marks the settled batch as being paid out.
    pub fn start_withdrawal(&mut self)
        requires
            old(self).wf(),
            old(self).status is Unbonded,
        ensures
            final(self).wf(),
            final(self).status is WithdrawalInProgress,
            status_rank(final(self).status) > status_rank(old(self).status),
            *final(self) == (UnbondBatch {
                status: UnbondBatchStatus::WithdrawalInProgress,
                ..*old(self)
            }),
    {
        self.status = UnbondBatchStatus::WithdrawalInProgress;
    }

    /// Marks the batch fully paid out.
    pub fn finish_withdrawal(&mut self)
        requires
            old(self).wf(),
            old(self).status is WithdrawalInProgress,
        ensures
            final(self).wf(),
            final(self).status is Withdrawn,
            status_rank(final(self).status) > status_rank(old(self).status),
            *final(self) == (UnbondBatch { status: UnbondBatchStatus::Withdrawn, ..*old(self) }),
    {
        self.status = UnbondBatchStatus::Withdrawn;
    }
}

} // verus!
