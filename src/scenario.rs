use vstd::prelude::*;

use crate::account_set::AccountSet;
use crate::block::ProposedBlock;
use crate::types::{FranklinTx, PriorityOp, TxBody};

verus! {

/// What the harness waits for next.
#[derive(Clone, Copy, Debug, PartialEq, Eq, Structural)]
pub enum HarnessStep {
    Start,
    SendingMiniBlock,
    SendingSeal,
    AwaitingBlock,
    Committing(u32),
    Verifying(u32),
    Stopping,
    Finished,
    Failed,
}

/// What happened after the last action.
#[derive(Clone, Copy, Debug, PartialEq, Eq, Structural)]
pub enum HarnessEvent {
    /// The state keeper has been started.
    Started,
    /// A request reached the state keeper's channel.
    RequestSent,
    /// The state keeper's request channel is closed.
    RequestFailed,
    /// A sealed block with this number came out of the output channel.
    BlockReceived(u32),
    /// The output channel is closed.
    ChannelClosed,
    /// The chain accepted the last transaction.
    ChainAccepted,
    /// The chain rejected the last transaction, or could not be reached.
    ChainFailed,
    /// The stop signal was sent, whether or not the state keeper took it.
    StopSent,
}

/// Why the scenario was abandoned.
#[derive(Clone, Copy, Debug, PartialEq, Eq, Structural)]
pub enum HarnessError {
    RequestSendFailed,
    StateKeeperClosed,
    ChainRejected,
    UnexpectedEvent,
}

/// What the harness does next.
#[derive(Clone, Copy, Debug, PartialEq, Eq, Structural)]
pub enum HarnessAction {
    /// Send the scenario's mini-block to the state keeper.
    SendMiniBlock,
    /// Send `SealBlock` to the state keeper.
    SendSeal,
    /// Wait for the next sealed block on the output channel.
    AwaitBlock,
    /// Submit the commit of this block on-chain.
    CommitBlock(u32),
    /// Submit the verify of this block on-chain, reading the operator's
    /// balance before and after.
    VerifyBlock(u32),
    /// Send the stop signal to the state keeper.
    SendStop,
    /// Wait for the state keeper's thread to end.
    Join,
    /// Give up the scenario.
    Abort(HarnessError),
    /// Nothing is left to do.
    Done,
}

/// The harness's next step and action after `event` in `step`.
pub open spec fn transition(step: HarnessStep, event: HarnessEvent) -> (HarnessStep, HarnessAction) {
    match (step, event) {
        (HarnessStep::Start, HarnessEvent::Started) => (HarnessStep::SendingMiniBlock, HarnessAction::SendMiniBlock),
        (HarnessStep::SendingMiniBlock, HarnessEvent::RequestSent) => (HarnessStep::SendingSeal, HarnessAction::SendSeal),
        (HarnessStep::SendingSeal, HarnessEvent::RequestSent) => (HarnessStep::AwaitingBlock, HarnessAction::AwaitBlock),
        (HarnessStep::SendingMiniBlock, HarnessEvent::RequestFailed) => (HarnessStep::Failed, HarnessAction::Abort(HarnessError::RequestSendFailed)),
        (HarnessStep::SendingSeal, HarnessEvent::RequestFailed) => (HarnessStep::Failed, HarnessAction::Abort(HarnessError::RequestSendFailed)),
        (HarnessStep::AwaitingBlock, HarnessEvent::BlockReceived(n)) => (HarnessStep::Committing(n), HarnessAction::CommitBlock(n)),
        (HarnessStep::AwaitingBlock, HarnessEvent::ChannelClosed) => (HarnessStep::Failed, HarnessAction::Abort(HarnessError::StateKeeperClosed)),
        (HarnessStep::Committing(n), HarnessEvent::ChainAccepted) => (HarnessStep::Verifying(n), HarnessAction::VerifyBlock(n)),
        (HarnessStep::Verifying(_), HarnessEvent::ChainAccepted) => (HarnessStep::Stopping, HarnessAction::SendStop),
        (HarnessStep::Committing(_), HarnessEvent::ChainFailed) => (HarnessStep::Failed, HarnessAction::Abort(HarnessError::ChainRejected)),
        (HarnessStep::Verifying(_), HarnessEvent::ChainFailed) => (HarnessStep::Failed, HarnessAction::Abort(HarnessError::ChainRejected)),
        (HarnessStep::Stopping, HarnessEvent::StopSent) => (HarnessStep::Finished, HarnessAction::Join),
        (HarnessStep::Finished, _) => (HarnessStep::Finished, HarnessAction::Done),
        (HarnessStep::Failed, _) => (HarnessStep::Failed, HarnessAction::Done),
        _ => (HarnessStep::Failed, HarnessAction::Abort(HarnessError::UnexpectedEvent)),
    }
}

/// Decides the harness's next step and action after `event` in `step`.
pub fn next_action(step: HarnessStep, event: HarnessEvent) -> (r: (HarnessStep, HarnessAction))
    ensures
        r == transition(step, event),
{
    match (step, event) {
        (HarnessStep::Start, HarnessEvent::Started) => (HarnessStep::SendingMiniBlock, HarnessAction::SendMiniBlock),
        (HarnessStep::SendingMiniBlock, HarnessEvent::RequestSent) => (HarnessStep::SendingSeal, HarnessAction::SendSeal),
        (HarnessStep::SendingSeal, HarnessEvent::RequestSent) => (HarnessStep::AwaitingBlock, HarnessAction::AwaitBlock),
        (HarnessStep::SendingMiniBlock, HarnessEvent::RequestFailed) => (HarnessStep::Failed, HarnessAction::Abort(HarnessError::RequestSendFailed)),
        (HarnessStep::SendingSeal, HarnessEvent::RequestFailed) => (HarnessStep::Failed, HarnessAction::Abort(HarnessError::RequestSendFailed)),
        (HarnessStep::AwaitingBlock, HarnessEvent::BlockReceived(n)) => (HarnessStep::Committing(n), HarnessAction::CommitBlock(n)),
        (HarnessStep::AwaitingBlock, HarnessEvent::ChannelClosed) => (HarnessStep::Failed, HarnessAction::Abort(HarnessError::StateKeeperClosed)),
        (HarnessStep::Committing(n), HarnessEvent::ChainAccepted) => (HarnessStep::Verifying(n), HarnessAction::VerifyBlock(n)),
        (HarnessStep::Verifying(_), HarnessEvent::ChainAccepted) => (HarnessStep::Stopping, HarnessAction::SendStop),
        (HarnessStep::Committing(_), HarnessEvent::ChainFailed) => (HarnessStep::Failed, HarnessAction::Abort(HarnessError::ChainRejected)),
        (HarnessStep::Verifying(_), HarnessEvent::ChainFailed) => (HarnessStep::Failed, HarnessAction::Abort(HarnessError::ChainRejected)),
        (HarnessStep::Stopping, HarnessEvent::StopSent) => (HarnessStep::Finished, HarnessAction::Join),
        (HarnessStep::Finished, _) => (HarnessStep::Finished, HarnessAction::Done),
        (HarnessStep::Failed, _) => (HarnessStep::Failed, HarnessAction::Done),
        _ => (HarnessStep::Failed, HarnessAction::Abort(HarnessError::UnexpectedEvent)),
    }
}

/// The harness verifies a block only right after the chain accepted that
/// block's commit, and commits only a block that the state keeper emitted.
pub proof fn lemma_harness_commits_before_verify(step: HarnessStep, event: HarnessEvent, n: u32)
    ensures
        transition(step, event).1 == HarnessAction::VerifyBlock(n) ==> step == HarnessStep::Committing(n)
            && event == HarnessEvent::ChainAccepted,
        transition(step, event).1 == HarnessAction::CommitBlock(n) ==> step == HarnessStep::AwaitingBlock
            && event == HarnessEvent::BlockReceived(n),
{
}

/// One ether, in wei.
pub const ETHER: u128 = 1_000_000_000_000_000_000;

/// The scenario's deposit: 1.0 ether.
pub const DEPOSIT_AMOUNT: u128 = 1_000_000_000_000_000_000;

/// The on-chain fee of the scenario's deposit: 0.1 ether.
pub const DEPOSIT_FEE: u128 = 100_000_000_000_000_000;

/// The scenario's transfer: 0.25 ether.
pub const TRANSFER_AMOUNT: u128 = 250_000_000_000_000_000;

/// The scenario's withdrawal: 0.5 ether.
pub const WITHDRAW_AMOUNT: u128 = 500_000_000_000_000_000;

/// The scenario's operations, on token 0: a deposit of 1.0 ether (fee 0.1)
/// from on-chain account 0 to ledger account 0; a transfer of 0.25 ether
/// from ledger account 0 to ledger account 1 at nonce 0; a withdrawal of
/// 0.5 ether from ledger account 0 to on-chain account 0 at nonce 1; both
/// without fee. The two transactions still need their signatures.
pub fn scenario_operations(set: &AccountSet) -> (r: (PriorityOp, TxBody, TxBody))
    requires
        set.eth_accounts@.len() >= 1,
        set.zksync_accounts@.len() >= 2,
    ensures
        r.0.token == 0 && r.0.amount == DEPOSIT_AMOUNT && r.0.fee == DEPOSIT_FEE && r.0.to@
            == set.zksync_address(0),
        r.1 matches TxBody::Transfer(t) && t.from@ == set.zksync_address(0) && t.to@
            == set.zksync_address(1) && t.token == 0 && t.amount == TRANSFER_AMOUNT && t.fee == 0
            && t.nonce == 0,
        r.2 matches TxBody::Withdraw(w) && w.account@ == set.zksync_address(0) && w.eth_address@
            == set.eth_address(0) && w.token == 0 && w.amount == WITHDRAW_AMOUNT && w.fee == 0
            && w.nonce == 1,
{
    let deposit = set.deposit(0, 0, 0, DEPOSIT_AMOUNT, DEPOSIT_FEE);
    let transfer = set.transfer(0, 1, 0, TRANSFER_AMOUNT, 0, 0);
    let withdraw = set.withdraw(0, 0, 0, WITHDRAW_AMOUNT, 0, 1);
    (deposit, transfer, withdraw)
}

/// The scenario's one mini-block: the deposit, then the signed transfer,
/// then the signed withdrawal.
pub fn scenario_block(deposit: PriorityOp, transfer: FranklinTx, withdraw: FranklinTx) -> (r: ProposedBlock)
    ensures
        r.priority_ops@ == seq![deposit],
        r.txs@ == seq![transfer, withdraw],
{
    let mut priority_ops: Vec<PriorityOp> = Vec::new();
    priority_ops.push(deposit);
    let mut txs: Vec<FranklinTx> = Vec::new();
    txs.push(transfer);
    txs.push(withdraw);
    assert(priority_ops@ =~= seq![deposit]);
    assert(txs@ =~= seq![transfer, withdraw]);
    ProposedBlock { priority_ops, txs }
}

} // verus!
