use vstd::prelude::*;

verus! {

/// Why the settlement contract would refuse a commit or a verify.
#[derive(Clone, Copy, Debug, PartialEq, Eq, Structural)]
pub enum SettlementError {
    /// The block is not the one after the last committed block.
    CommitOutOfOrder,
    /// The block was never committed.
    NotCommitted,
    /// The block is not the one after the last verified block.
    VerifyOutOfOrder,
}

/// Blocks settle one at a time: committed in order, then verified in order,
/// never verified before they are committed.
#[derive(Clone, Copy, Debug, PartialEq, Eq, Structural)]
pub struct Settlement {
    pub last_committed: u32,
    pub last_verified: u32,
}

/// The settlement state after committing `block`, or why it is refused.
pub open spec fn commit_outcome(s: Settlement, block: u32) -> Result<Settlement, SettlementError> {
    if block as int != s.last_committed + 1 {
        Err(SettlementError::CommitOutOfOrder)
    } else {
        Ok(Settlement { last_committed: block, ..s })
    }
}

/// The settlement state after verifying `block`, or why it is refused.
pub open spec fn verify_outcome(s: Settlement, block: u32) -> Result<Settlement, SettlementError> {
    if block > s.last_committed {
        Err(SettlementError::NotCommitted)
    } else if block as int != s.last_verified + 1 {
        Err(SettlementError::VerifyOutOfOrder)
    } else {
        Ok(Settlement { last_verified: block, ..s })
    }
}

impl Settlement {
    pub open spec fn wf(&self) -> bool {
        self.last_verified <= self.last_committed
    }

    /// Nothing committed or verified after block `last_block`.
    pub fn new(last_block: u32) -> (r: Settlement)
        ensures
            r.wf(),
            r.last_committed == last_block,
            r.last_verified == last_block,
    {
        Settlement { last_committed: last_block, last_verified: last_block }
    }

    /// Records the commit of `block`; the caller submits it on-chain only on `Ok`.
    pub fn commit(&mut self, block: u32) -> (r: Result<(), SettlementError>)
        requires
            old(self).wf(),
        ensures
            final(self).wf(),
            match commit_outcome(*old(self), block) {
                Ok(s) => r is Ok && *final(self) == s,
                Err(e) => r == Err::<(), SettlementError>(e) && *final(self) == *old(self),
            },
    {
        if self.last_committed == u32::MAX || block != self.last_committed + 1 {
            return Err(SettlementError::CommitOutOfOrder);
        }
        self.last_committed = block;
        Ok(())
    }

    /// Records the verify of `block`; the caller submits it on-chain only on `Ok`.
    pub fn verify(&mut self, block: u32) -> (r: Result<(), SettlementError>)
        requires
            old(self).wf(),
        ensures
            final(self).wf(),
            match verify_outcome(*old(self), block) {
                Ok(s) => r is Ok && *final(self) == s,
                Err(e) => r == Err::<(), SettlementError>(e) && *final(self) == *old(self),
            },
    {
        if block > self.last_committed {
            return Err(SettlementError::NotCommitted);
        }
        if block == 0 || block - 1 != self.last_verified {
            return Err(SettlementError::VerifyOutOfOrder);
        }
        self.last_verified = block;
        Ok(())
    }
}

/// Settlement ordering: a verify is accepted only for a block whose commit
/// was accepted before, and the next block to verify is refused as not
/// committed until its commit is accepted; after that commit it is accepted.
pub proof fn lemma_verify_after_commit(s: Settlement, block: u32)
    requires
        s.wf(),
        s.last_committed == s.last_verified,
        block as int == s.last_committed + 1,
    ensures
        verify_outcome(s, block) == Err::<Settlement, SettlementError>(SettlementError::NotCommitted),
        commit_outcome(s, block) is Ok,
        verify_outcome(commit_outcome(s, block)->Ok_0, block) is Ok,
        forall|t: Settlement, b: u32| t.wf() && #[trigger] verify_outcome(t, b) is Ok ==> b <= t.last_committed,
{
}

/// The wei that the account spent between two balance readings, or `None`
/// where the balance grew.
pub fn balance_decrease(before: u128, after: u128) -> (r: Option<u128>)
    ensures
        after <= before ==> r == Some((before - after) as u128),
        after > before ==> r is None,
{
    if after <= before {
        Some(before - after)
    } else {
        None
    }
}

/// Whether the operator's balance fell, from `before` the commit to `after`
/// the verify, by at least what both transactions cost.
pub fn paid_for_settlement(before: u128, after: u128, commit_cost: u128, verify_cost: u128) -> (r: bool)
    ensures
        r == (before - after >= commit_cost + verify_cost),
{
    if after > before {
        return false;
    }
    let spent = before - after;
    if commit_cost > spent {
        return false;
    }
    spent - commit_cost >= verify_cost
}

} // verus!
