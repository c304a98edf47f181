use test_kit::account_set::{AccountSet, AccountSetId, EthereumAccount, ZksyncAccount};
use test_kit::block::{dummy_proposed_block, new_transfer, ProposedBlock};
use test_kit::encoding::{push_be_bytes, TRANSFER_TAG, WITHDRAW_TAG};
use test_kit::scenario::{
    next_action, scenario_block, scenario_operations, HarnessAction, HarnessError, HarnessEvent,
    HarnessStep, DEPOSIT_AMOUNT, DEPOSIT_FEE, TRANSFER_AMOUNT, WITHDRAW_AMOUNT,
};
use test_kit::settlement::{balance_decrease, paid_for_settlement, Settlement, SettlementError};
use test_kit::state_keeper::{
    genesis_state, resolve_account, Phase, PlasmaStateInitParams, ProtocolError, StateKeeper,
    StateKeeperRequest, StateKeeperResponse, MAX_BLOCK_NUMBER,
};
use test_kit::types::{
    Account, AccountAddress, Balance, EthAddress, FranklinTx, TxBody, TxSignature,
};

const ETHER: u128 = 1_000_000_000_000_000_000;

fn ledger_address(b: u8) -> AccountAddress {
    AccountAddress { data: vec![b; 27] }
}

fn accounts() -> AccountSet {
    AccountSet {
        eth_accounts: vec![EthereumAccount { address: EthAddress { data: vec![0xee; 20] } }],
        zksync_accounts: vec![
            ZksyncAccount { address: ledger_address(0xa1) },
            ZksyncAccount { address: ledger_address(0xb2) },
        ],
    }
}

fn signed(body: TxBody) -> FranklinTx {
    FranklinTx::new(body, TxSignature { bytes: vec![7; 64] })
}

fn operator() -> AccountAddress {
    ledger_address(0x01)
}

fn keeper() -> StateKeeper {
    StateKeeper::new(genesis_state(&operator()))
}

fn seal_number(r: Result<StateKeeperResponse, ProtocolError>) -> u32 {
    match r {
        Ok(StateKeeperResponse::Sealed(n)) => n,
        _ => panic!("expected a sealed block"),
    }
}

#[test]
fn end_to_end_deposit_transfer_withdraw_settles() {
    let set = accounts();
    let deposit = set.deposit(0, 0, 0, ETHER, ETHER / 10);
    assert_eq!(deposit.amount, ETHER);
    assert_eq!(deposit.fee, ETHER / 10);
    assert_eq!(deposit.to.data, vec![0xa1; 27]);
    let transfer = set.transfer(0, 1, 0, ETHER / 4, 0, 0);
    let withdraw = set.withdraw(0, 0, 0, ETHER / 2, 0, 1);
    match &transfer {
        TxBody::Transfer(t) => {
            assert_eq!(t.from.data, vec![0xa1; 27]);
            assert_eq!(t.to.data, vec![0xb2; 27]);
            assert_eq!(t.amount, 250_000_000_000_000_000);
            assert_eq!(t.nonce, 0);
        }
        _ => panic!("expected a transfer"),
    }
    match &withdraw {
        TxBody::Withdraw(w) => {
            assert_eq!(w.account.data, vec![0xa1; 27]);
            assert_eq!(w.eth_address.data, vec![0xee; 20]);
            assert_eq!(w.amount, 500_000_000_000_000_000);
            assert_eq!(w.nonce, 1);
        }
        _ => panic!("expected a withdrawal"),
    }
    let block = scenario_block(deposit, signed(transfer), signed(withdraw));

    let mut sk = keeper();
    assert!(matches!(sk.handle(StateKeeperRequest::ExecuteMiniBlock(block)), Ok(StateKeeperResponse::Executed)));
    assert_eq!(seal_number(sk.handle(StateKeeperRequest::SealBlock)), 1);
    let out = sk.take_notifications();
    assert_eq!(out.len(), 1);
    assert_eq!(out[0].block_number, 1);
    assert_eq!(out[0].priority_ops.len(), 1);
    assert_eq!(out[0].txs.len(), 2);
    assert_eq!(out[0].priority_ops[0].amount, ETHER);
    assert_eq!(out[0].priority_ops[0].to.data, vec![0xa1; 27]);
    assert!(matches!(out[0].txs[0].body, TxBody::Transfer(_)));
    assert!(matches!(out[0].txs[1].body, TxBody::Withdraw(_)));

    let mut chain = Settlement::new(0);
    assert_eq!(chain.commit(out[0].block_number), Ok(()));
    let before: u128 = 100 * ETHER;
    assert_eq!(chain.verify(out[0].block_number), Ok(()));
    let (commit_cost, verify_cost) = (2_000_000_000_000_000u128, 1_000_000_000_000_000u128);
    let after: u128 = before - commit_cost - verify_cost;
    assert!(paid_for_settlement(before, after, commit_cost, verify_cost));
    assert_eq!(balance_decrease(before, after), Some(3_000_000_000_000_000));
    assert_eq!(chain, Settlement { last_committed: 1, last_verified: 1 });
}

#[test]
fn harness_walks_the_scenario_in_order() {
    let mut step = HarnessStep::Start;
    let events = [
        (HarnessEvent::Started, HarnessAction::SendMiniBlock),
        (HarnessEvent::RequestSent, HarnessAction::SendSeal),
        (HarnessEvent::RequestSent, HarnessAction::AwaitBlock),
        (HarnessEvent::BlockReceived(1), HarnessAction::CommitBlock(1)),
        (HarnessEvent::ChainAccepted, HarnessAction::VerifyBlock(1)),
        (HarnessEvent::ChainAccepted, HarnessAction::SendStop),
        (HarnessEvent::StopSent, HarnessAction::Join),
    ];
    for (event, expected) in events {
        let (next, action) = next_action(step, event);
        assert_eq!(action, expected);
        step = next;
    }
    assert_eq!(step, HarnessStep::Finished);
    assert_eq!(next_action(step, HarnessEvent::ChainAccepted), (HarnessStep::Finished, HarnessAction::Done));
}

#[test]
fn harness_aborts_on_each_failure() {
    assert_eq!(
        next_action(HarnessStep::SendingMiniBlock, HarnessEvent::RequestFailed),
        (HarnessStep::Failed, HarnessAction::Abort(HarnessError::RequestSendFailed))
    );
    assert_eq!(
        next_action(HarnessStep::AwaitingBlock, HarnessEvent::ChannelClosed),
        (HarnessStep::Failed, HarnessAction::Abort(HarnessError::StateKeeperClosed))
    );
    assert_eq!(
        next_action(HarnessStep::Committing(4), HarnessEvent::ChainFailed),
        (HarnessStep::Failed, HarnessAction::Abort(HarnessError::ChainRejected))
    );
    assert_eq!(
        next_action(HarnessStep::AwaitingBlock, HarnessEvent::ChainAccepted),
        (HarnessStep::Failed, HarnessAction::Abort(HarnessError::UnexpectedEvent))
    );
    assert_eq!(next_action(HarnessStep::Failed, HarnessEvent::Started), (HarnessStep::Failed, HarnessAction::Done));
}

#[test]
fn seals_emit_one_block_each_in_order() {
    let mut sk = keeper();
    for expected in 1..=3u32 {
        let block = dummy_proposed_block(TxSignature { bytes: vec![expected as u8; 64] });
        assert!(sk.handle(StateKeeperRequest::ExecuteMiniBlock(block)).is_ok());
        assert_eq!(seal_number(sk.handle(StateKeeperRequest::SealBlock)), expected);
    }
    let out = sk.take_notifications();
    let numbers: Vec<u32> = out.iter().map(|c| c.block_number).collect();
    assert_eq!(numbers, vec![1, 2, 3]);
    assert!(sk.take_notifications().is_empty());
    assert_eq!(sk.phase, Phase::Idle);
}

#[test]
fn mini_blocks_accumulate_into_one_seal() {
    let set = accounts();
    let mut sk = keeper();
    let d1 = set.deposit(0, 0, 0, 5, 1);
    let d2 = set.deposit(0, 1, 0, 6, 1);
    assert!(sk.handle(StateKeeperRequest::ExecuteMiniBlock(ProposedBlock::new(vec![d1], vec![]))).is_ok());
    assert_eq!(sk.phase, Phase::Accumulating);
    assert!(sk.handle(StateKeeperRequest::ExecuteMiniBlock(ProposedBlock::new(vec![d2], vec![]))).is_ok());
    assert_eq!(seal_number(sk.handle(StateKeeperRequest::SealBlock)), 1);
    let out = sk.take_notifications();
    assert_eq!(out.len(), 1);
    assert_eq!(out[0].priority_ops.iter().map(|p| p.amount).collect::<Vec<u128>>(), vec![5, 6]);
}

#[test]
fn seal_without_mini_block_stops_the_state_keeper() {
    let mut sk = keeper();
    assert!(matches!(sk.handle(StateKeeperRequest::SealBlock), Err(ProtocolError::EmptySeal)));
    assert_eq!(sk.phase, Phase::Stopped);
    assert!(matches!(sk.handle(StateKeeperRequest::GetAccount(operator())), Err(ProtocolError::Stopped)));
    assert!(sk.take_notifications().is_empty());
}

#[test]
fn seal_past_the_last_block_number_is_refused() {
    let init = PlasmaStateInitParams { accounts: vec![], last_block_number: MAX_BLOCK_NUMBER, unprocessed_priority_op: 0 };
    let mut sk = StateKeeper::new(init);
    assert!(sk.handle(StateKeeperRequest::ExecuteMiniBlock(ProposedBlock::new(vec![], vec![]))).is_ok());
    assert!(matches!(sk.handle(StateKeeperRequest::SealBlock), Err(ProtocolError::BlockNumberOverflow)));
    assert_eq!(sk.phase, Phase::Stopped);
}

#[test]
fn get_account_is_idempotent_between_seals() {
    let mut sk = keeper();
    let first = match sk.handle(StateKeeperRequest::GetAccount(operator())) {
        Ok(StateKeeperResponse::Account(Some(a))) => a,
        _ => panic!("operator account expected"),
    };
    let block = dummy_proposed_block(TxSignature { bytes: vec![1; 64] });
    assert!(sk.handle(StateKeeperRequest::ExecuteMiniBlock(block)).is_ok());
    let second = match sk.handle(StateKeeperRequest::GetAccount(operator())) {
        Ok(StateKeeperResponse::Account(Some(a))) => a,
        _ => panic!("operator account expected"),
    };
    assert_eq!(first.address.data, second.address.data);
    assert_eq!(first.nonce, second.nonce);
    assert_eq!(first.balances.len(), second.balances.len());
    assert_eq!(sk.phase, Phase::Accumulating);
}

#[test]
fn absent_account_resolves_to_empty_account() {
    let mut sk = keeper();
    let unknown = ledger_address(0x55);
    let answer = match sk.handle(StateKeeperRequest::GetAccount(unknown.clone())) {
        Ok(StateKeeperResponse::Account(a)) => a,
        _ => panic!("an answer expected"),
    };
    assert!(answer.is_none());
    let account = resolve_account(answer, &unknown);
    assert_eq!(account.address.data, vec![0x55; 27]);
    assert_eq!(account.nonce, 0);
    assert_eq!(account.get_balance(0), 0);
}

#[test]
fn genesis_holds_the_empty_operator_account() {
    let g = genesis_state(&operator());
    assert_eq!(g.accounts.len(), 1);
    assert_eq!(g.accounts[0].0, 0);
    assert_eq!(g.accounts[0].1.address.data, vec![0x01; 27]);
    assert!(g.accounts[0].1.balances.is_empty());
    assert_eq!(g.last_block_number, 0);
    assert_eq!(g.unprocessed_priority_op, 0);
}

#[test]
fn balance_lookup_takes_the_latest_entry() {
    let a = Account {
        address: operator(),
        nonce: 2,
        balances: vec![Balance { token: 0, amount: 10 }, Balance { token: 1, amount: 7 }, Balance { token: 0, amount: 12 }],
    };
    assert_eq!(a.get_balance(0), 12);
    assert_eq!(a.get_balance(1), 7);
    assert_eq!(a.get_balance(9), 0);
}

#[test]
fn verify_before_commit_is_refused() {
    let mut chain = Settlement::new(0);
    assert_eq!(chain.verify(1), Err(SettlementError::NotCommitted));
    assert_eq!(chain, Settlement { last_committed: 0, last_verified: 0 });
    assert_eq!(chain.commit(2), Err(SettlementError::CommitOutOfOrder));
    assert_eq!(chain.commit(1), Ok(()));
    assert_eq!(chain.commit(2), Ok(()));
    assert_eq!(chain.verify(2), Err(SettlementError::VerifyOutOfOrder));
    assert_eq!(chain.verify(1), Ok(()));
    assert_eq!(chain.verify(2), Ok(()));
    assert_eq!(chain.verify(3), Err(SettlementError::NotCommitted));
}

#[test]
fn balance_decrease_of_a_growing_balance_is_none() {
    assert_eq!(balance_decrease(5, 9), None);
    assert_eq!(balance_decrease(9, 9), Some(0));
}

#[test]
fn account_ids_are_checked_against_their_own_half() {
    let set = accounts();
    assert!(set.contains(AccountSetId::ETHAccount(0)));
    assert!(!set.contains(AccountSetId::ETHAccount(1)));
    assert!(set.contains(AccountSetId::ZKSync(1)));
    assert!(!set.contains(AccountSetId::ZKSync(2)));
}

#[test]
fn transfer_encoding_lays_out_every_field() {
    let set = accounts();
    let body = set.transfer(0, 1, 0x0102, 0x0304, 5, 0x0a0b0c0d);
    let bytes = body.get_bytes();
    assert_eq!(bytes.len(), 1 + 27 + 27 + 2 + 16 + 16 + 4);
    assert_eq!(bytes[0], TRANSFER_TAG);
    assert_eq!(&bytes[1..28], &[0xa1; 27][..]);
    assert_eq!(&bytes[28..55], &[0xb2; 27][..]);
    assert_eq!(&bytes[55..57], &[1, 2][..]);
    assert_eq!(&bytes[71..73], &[3, 4][..]);
    assert_eq!(bytes[88], 5);
    assert_eq!(&bytes[89..93], &[0x0a, 0x0b, 0x0c, 0x0d][..]);
    let tx = signed(body);
    assert_eq!(tx.get_bytes(), bytes);
}

#[test]
fn withdraw_encoding_starts_with_its_tag() {
    let set = accounts();
    let bytes = set.withdraw(1, 0, 0, 1, 0, 0).get_bytes();
    assert_eq!(bytes.len(), 1 + 27 + 20 + 2 + 16 + 16 + 4);
    assert_eq!(bytes[0], WITHDRAW_TAG);
    assert_eq!(&bytes[28..48], &[0xee; 20][..]);
}

#[test]
fn changing_any_signed_field_changes_the_message() {
    let set = accounts();
    let base = set.transfer(0, 1, 0, ETHER / 4, 0, 0).get_bytes();
    let variants = [
        set.transfer(1, 1, 0, ETHER / 4, 0, 0),
        set.transfer(0, 0, 0, ETHER / 4, 0, 0),
        set.transfer(0, 1, 1, ETHER / 4, 0, 0),
        set.transfer(0, 1, 0, ETHER / 4 + 1, 0, 0),
        set.transfer(0, 1, 0, ETHER / 4, 1, 0),
        set.transfer(0, 1, 0, ETHER / 4, 0, 1),
    ];
    for v in variants.iter() {
        assert_ne!(v.get_bytes(), base);
    }
    let w = set.withdraw(0, 0, 0, ETHER / 4, 0, 0).get_bytes();
    assert_ne!(w, base);
}

#[test]
fn big_endian_bytes_of_an_integer() {
    let mut out = vec![9u8];
    push_be_bytes(&mut out, 0x0102_0304, 4);
    assert_eq!(out, vec![9, 1, 2, 3, 4]);
    let mut wide = Vec::new();
    push_be_bytes(&mut wide, u128::MAX, 16);
    assert_eq!(wide, vec![0xff; 16]);
}

#[test]
fn zero_addresses_have_their_fixed_lengths() {
    assert_eq!(AccountAddress::zero().data, vec![0; 27]);
    assert_eq!(EthAddress::zero().data, vec![0; 20]);
    match new_transfer() {
        TxBody::Transfer(t) => {
            assert_eq!(t.from.data, vec![0; 27]);
            assert_eq!(t.amount, 0);
        }
        _ => panic!("expected a transfer"),
    }
}

#[test]
fn dummy_block_holds_the_signed_zero_transfer() {
    let block = dummy_proposed_block(TxSignature { bytes: vec![3; 64] });
    assert!(block.priority_ops.is_empty());
    assert_eq!(block.txs.len(), 1);
    assert_eq!(block.txs[0].signature.bytes, vec![3; 64]);
    match &block.txs[0].body {
        TxBody::Transfer(t) => {
            assert_eq!(t.from.data, vec![0; 27]);
            assert_eq!(t.to.data, vec![0; 27]);
            assert_eq!((t.token, t.amount, t.fee, t.nonce), (0, 0, 0, 0));
        }
        _ => panic!("expected a transfer"),
    }
}

#[test]
fn scenario_operations_fix_every_field() {
    let set = accounts();
    let (deposit, transfer, withdraw) = scenario_operations(&set);
    assert_eq!((deposit.token, deposit.amount, deposit.fee), (0, ETHER, ETHER / 10));
    assert_eq!(deposit.to.data, vec![0xa1; 27]);
    assert_eq!((DEPOSIT_AMOUNT, DEPOSIT_FEE, TRANSFER_AMOUNT, WITHDRAW_AMOUNT), (ETHER, ETHER / 10, ETHER / 4, ETHER / 2));
    match &transfer {
        TxBody::Transfer(t) => {
            assert_eq!(t.from.data, vec![0xa1; 27]);
            assert_eq!(t.to.data, vec![0xb2; 27]);
            assert_eq!((t.token, t.amount, t.fee, t.nonce), (0, ETHER / 4, 0, 0));
        }
        _ => panic!("expected a transfer"),
    }
    match &withdraw {
        TxBody::Withdraw(w) => {
            assert_eq!(w.account.data, vec![0xa1; 27]);
            assert_eq!(w.eth_address.data, vec![0xee; 20]);
            assert_eq!((w.token, w.amount, w.fee, w.nonce), (0, ETHER / 2, 0, 1));
        }
        _ => panic!("expected a withdrawal"),
    }
    let block = scenario_block(deposit, signed(transfer), signed(withdraw));
    assert_eq!(block.priority_ops.len(), 1);
    assert_eq!(block.priority_ops[0].amount, ETHER);
    assert!(matches!(block.txs[0].body, TxBody::Transfer(_)));
    assert!(matches!(block.txs[1].body, TxBody::Withdraw(_)));
}

#[test]
fn settlement_must_cost_both_transactions() {
    assert!(paid_for_settlement(100, 70, 10, 20));
    assert!(paid_for_settlement(100, 60, 10, 20));
    assert!(!paid_for_settlement(100, 75, 10, 20));
    assert!(!paid_for_settlement(100, 120, 0, 0));
    assert!(paid_for_settlement(100, 100, 0, 0));
}
