use vstd::prelude::*;

use crate::block::ProposedBlock;
use crate::types::{Account, AccountAddress, FranklinTx, PriorityOp};

verus! {

/// Where the state keeper stands between requests.
#[derive(Clone, Copy, Debug, PartialEq, Eq, Structural)]
pub enum Phase {
    /// No block in progress.
    Idle,
    /// One or more mini-blocks applied to the block in progress.
    Accumulating,
    /// The state keeper has terminated; its channel is closed.
    Stopped,
}

/// A request to the state keeper.
pub enum StateKeeperRequest {
    /// The account at an address, as of the last sealed block.
    GetAccount(AccountAddress),
    /// Append a mini-block to the block in progress.
    ExecuteMiniBlock(ProposedBlock),
    /// Finish the block in progress and emit it.
    SealBlock,
}

/// The state keeper's answer to an accepted request.
pub enum StateKeeperResponse {
    /// The account asked for; `None` where no account has that address.
    Account(Option<Account>),
    /// The mini-block was appended.
    Executed,
    /// The block in progress was sealed under this number and emitted.
    Sealed(u32),
}

/// A request that terminates the state keeper, or one sent after it did.
#[derive(Clone, Copy, Debug, PartialEq, Eq, Structural)]
pub enum ProtocolError {
    /// `SealBlock` with no mini-block since the last seal.
    EmptySeal,
    /// The state keeper has terminated.
    Stopped,
    /// The block number cannot grow any further.
    BlockNumberOverflow,
}

/// A sealed block, emitted once per seal on the output channel.
pub struct CommitRequest {
    pub block_number: u32,
    pub priority_ops: Vec<PriorityOp>,
    pub txs: Vec<FranklinTx>,
}

/// The state the state keeper starts from.
pub struct PlasmaStateInitParams {
    pub accounts: Vec<(u32, Account)>,
    pub last_block_number: u32,
    pub unprocessed_priority_op: u64,
}

/// Genesis: the operator's empty account under id 0, block 0, no
/// unprocessed deposits.
pub fn genesis_state(operator_address: &AccountAddress) -> (r: PlasmaStateInitParams)
    ensures
        r.accounts@.len() == 1,
        r.accounts@[0].0 == 0,
        r.accounts@[0].1.address@ == operator_address@,
        r.accounts@[0].1.nonce == 0,
        r.accounts@[0].1.balances@.len() == 0,
        r.accounts@[0].1.wf(),
        r.last_block_number == 0,
        r.unprocessed_priority_op == 0,
{
    let mut accounts: Vec<(u32, Account)> = Vec::new();
    accounts.push((0u32, Account::default_with_address(operator_address)));
    PlasmaStateInitParams { accounts, last_block_number: 0, unprocessed_priority_op: 0 }
}

/// The protocol state of a state keeper, as plain values.
pub struct ProtocolView {
    pub phase: Phase,
    pub block_number: int,
    pub pending_ops: Seq<PriorityOp>,
    pub pending_txs: Seq<FranklinTx>,
    /// Numbers of the sealed blocks not yet taken from the output channel,
    /// oldest first.
    pub sealed: Seq<int>,
}

/// The largest block number.
pub const MAX_BLOCK_NUMBER: u32 = 0xffff_ffff;

/// The error for `req` in `v`, if `req` is refused there.
pub open spec fn refusal(v: ProtocolView, req: StateKeeperRequest) -> Option<ProtocolError> {
    if v.phase == Phase::Stopped {
        Some(ProtocolError::Stopped)
    } else if req is SealBlock && v.phase == Phase::Idle {
        Some(ProtocolError::EmptySeal)
    } else if req is SealBlock && v.block_number >= MAX_BLOCK_NUMBER {
        Some(ProtocolError::BlockNumberOverflow)
    } else {
        None
    }
}

/// Whether `req` is refused in `v`.
pub open spec fn refused(v: ProtocolView, req: StateKeeperRequest) -> bool {
    refusal(v, req) is Some
}

/// The protocol state after `req`.
pub open spec fn step(v: ProtocolView, req: StateKeeperRequest) -> ProtocolView {
    if refused(v, req) {
        ProtocolView { phase: Phase::Stopped, ..v }
    } else {
        match req {
            StateKeeperRequest::GetAccount(_) => v,
            StateKeeperRequest::ExecuteMiniBlock(b) => ProtocolView {
                phase: Phase::Accumulating,
                pending_ops: v.pending_ops + b.priority_ops@,
                pending_txs: v.pending_txs + b.txs@,
                ..v
            },
            StateKeeperRequest::SealBlock => ProtocolView {
                phase: Phase::Idle,
                block_number: v.block_number + 1,
                pending_ops: Seq::empty(),
                pending_txs: Seq::empty(),
                sealed: v.sealed.push(v.block_number + 1),
            },
        }
    }
}

/// The protocol state after `reqs`, issued in order.
pub open spec fn run(v: ProtocolView, reqs: Seq<StateKeeperRequest>) -> ProtocolView
    decreases reqs.len(),
{
    if reqs.len() == 0 {
        v
    } else {
        step(run(v, reqs.drop_last()), reqs.last())
    }
}

/// Every request of `reqs` is accepted when they are issued in order from `v`.
pub open spec fn all_accepted(v: ProtocolView, reqs: Seq<StateKeeperRequest>) -> bool
    decreases reqs.len(),
{
    if reqs.len() == 0 {
        v.phase != Phase::Stopped
    } else {
        all_accepted(v, reqs.drop_last()) && !refused(run(v, reqs.drop_last()), reqs.last())
    }
}

/// The number of `SealBlock` requests in `reqs`.
pub open spec fn count_seals(reqs: Seq<StateKeeperRequest>) -> nat
    decreases reqs.len(),
{
    if reqs.len() == 0 {
        0
    } else {
        count_seals(reqs.drop_last()) + if reqs.last() is SealBlock {
            1nat
        } else {
            0nat
        }
    }
}

/// The account with address `address` in `accounts`: the first one.
pub open spec fn lookup(accounts: Seq<(u32, Account)>, address: Seq<u8>) -> Option<int>
    decreases accounts.len(),
{
    if accounts.len() == 0 {
        None
    } else if accounts[0].1.address@ == address {
        Some(0)
    } else {
        match lookup(accounts.drop_first(), address) {
            Some(i) => Some(i + 1),
            None => None,
        }
    }
}

/// Whether `r` is what `accounts` hold at `address`.
pub open spec fn answers(accounts: Seq<(u32, Account)>, address: Seq<u8>, r: Option<Account>) -> bool {
    match lookup(accounts, address) {
        None => r is None,
        Some(i) => match r {
            Some(a) => {
                &&& a.address@ == accounts[i].1.address@
                &&& a.nonce == accounts[i].1.nonce
                &&& a.balances@ == accounts[i].1.balances@
            },
            None => false,
        },
    }
}

/// Whether `r` and `post` are what handling `req` in `pre` gives, besides
/// the protocol state that `step` describes.
pub open spec fn handled(
    pre: StateKeeper,
    req: StateKeeperRequest,
    post: StateKeeper,
    r: Result<StateKeeperResponse, ProtocolError>,
) -> bool {
    match refusal(pre@, req) {
        Some(e) => r == Err::<StateKeeperResponse, ProtocolError>(e) && post.outbox@ == pre.outbox@,
        None => match req {
            StateKeeperRequest::GetAccount(address) => {
                &&& post.outbox@ == pre.outbox@
                &&& match r {
                    Ok(StateKeeperResponse::Account(a)) => answers(pre.accounts@, address@, a),
                    _ => false,
                }
            },
            StateKeeperRequest::ExecuteMiniBlock(_) => {
                &&& post.outbox@ == pre.outbox@
                &&& r matches Ok(StateKeeperResponse::Executed)
            },
            StateKeeperRequest::SealBlock => {
                &&& r == Ok::<StateKeeperResponse, ProtocolError>(
                    StateKeeperResponse::Sealed((pre.block_number + 1) as u32),
                )
                &&& post.outbox@.len() == pre.outbox@.len() + 1
                &&& post.outbox@.drop_last() == pre.outbox@
                &&& post.outbox@.last().block_number == pre.block_number + 1
                &&& post.outbox@.last().priority_ops@ == pre.pending_ops@
                &&& post.outbox@.last().txs@ == pre.pending_txs@
            },
        },
    }
}

/// The protocol side of a state keeper: it accepts requests in the order
/// that the protocol allows and emits one sealed block per seal. What a
/// block does to balances is not its concern.
pub struct StateKeeper {
    pub phase: Phase,
    pub block_number: u32,
    pub accounts: Vec<(u32, Account)>,
    pub pending_ops: Vec<PriorityOp>,
    pub pending_txs: Vec<FranklinTx>,
    pub outbox: Vec<CommitRequest>,
}

impl View for StateKeeper {
    type V = ProtocolView;

    open spec fn view(&self) -> ProtocolView {
        ProtocolView {
            phase: self.phase,
            block_number: self.block_number as int,
            pending_ops: self.pending_ops@,
            pending_txs: self.pending_txs@,
            sealed: self.outbox@.map_values(|c: CommitRequest| c.block_number as int),
        }
    }
}

impl StateKeeper {
    /// An idle state keeper at the state `init`.
    pub fn new(init: PlasmaStateInitParams) -> (r: StateKeeper)
        ensures
            r@.phase == Phase::Idle,
            r@.block_number == init.last_block_number,
            r@.pending_ops.len() == 0,
            r@.pending_txs.len() == 0,
            r@.sealed.len() == 0,
            r.accounts@ == init.accounts@,
    {
        StateKeeper {
            phase: Phase::Idle,
            block_number: init.last_block_number,
            accounts: init.accounts,
            pending_ops: Vec::new(),
            pending_txs: Vec::new(),
            outbox: Vec::new(),
        }
    }

    /// The account at `address`, or `None` where there is none.
    pub fn get_account(&self, address: &AccountAddress) -> (r: Option<Account>)
        ensures
            answers(self.accounts@, address@, r),
    {
        let mut i: usize = 0;
        assert(self.accounts@.subrange(0, self.accounts@.len() as int) =~= self.accounts@);
        while i < self.accounts.len()
            invariant
                i <= self.accounts@.len(),
                lookup(self.accounts@, address@) == match lookup(self.accounts@.subrange(i as int, self.accounts@.len() as int), address@) {
                    Some(j) => Some(j + i),
                    None => None::<int>,
                },
            decreases self.accounts@.len() - i,
        {
            let ghost rest = self.accounts@.subrange(i as int, self.accounts@.len() as int);
            assert(rest.drop_first() =~= self.accounts@.subrange(i + 1, self.accounts@.len() as int));
            if bytes_eq(&self.accounts[i].1.address.data, &address.data) {
                return Some(self.accounts[i].1.duplicate());
            }
            i = i + 1;
        }
        None
    }
}

impl StateKeeper {
    /// Handles one request. A refused request terminates the state keeper.
    /// An accepted seal emits the block in progress under the next number.
    pub fn handle(&mut self, req: StateKeeperRequest) -> (r: Result<StateKeeperResponse, ProtocolError>)
        ensures
            final(self)@ == step(old(self)@, req),
            final(self).accounts@ == old(self).accounts@,
            handled(*old(self), req, *final(self), r),
    {
        if self.phase == Phase::Stopped {
            return Err(ProtocolError::Stopped);
        }
        match req {
            StateKeeperRequest::GetAccount(address) => {
                let found = self.get_account(&address);
                let r = Ok(StateKeeperResponse::Account(found));
                assert(answers(self.accounts@, address@, found));
                r
            },
            StateKeeperRequest::ExecuteMiniBlock(block) => {
                let mut ops = block.priority_ops;
                let mut txs = block.txs;
                self.pending_ops.append(&mut ops);
                self.pending_txs.append(&mut txs);
                self.phase = Phase::Accumulating;
                Ok(StateKeeperResponse::Executed)
            },
            StateKeeperRequest::SealBlock => {
                if self.phase == Phase::Idle {
                    self.phase = Phase::Stopped;
                    return Err(ProtocolError::EmptySeal);
                }
                if self.block_number >= MAX_BLOCK_NUMBER {
                    self.phase = Phase::Stopped;
                    return Err(ProtocolError::BlockNumberOverflow);
                }
                let mut ops: Vec<PriorityOp> = Vec::new();
                let mut txs: Vec<FranklinTx> = Vec::new();
                std::mem::swap(&mut ops, &mut self.pending_ops);
                std::mem::swap(&mut txs, &mut self.pending_txs);
                self.block_number = self.block_number + 1;
                self.outbox.push(CommitRequest { block_number: self.block_number, priority_ops: ops, txs });
                self.phase = Phase::Idle;
                proof {
                    let v = old(self)@;
                    assert(self.outbox@.drop_last() =~= old(self).outbox@);
                    assert(self@.sealed =~= v.sealed.push(v.block_number + 1));
                    assert(self@.pending_ops =~= Seq::<PriorityOp>::empty());
                    assert(self@.pending_txs =~= Seq::<FranklinTx>::empty());
                }
                Ok(StateKeeperResponse::Sealed(self.block_number))
            },
        }
    }

    /// Takes the sealed blocks emitted so far, oldest first.
    pub fn take_notifications(&mut self) -> (r: Vec<CommitRequest>)
        ensures
            r@ == old(self).outbox@,
            final(self).outbox@.len() == 0,
            final(self)@ == (ProtocolView { sealed: Seq::empty(), ..old(self)@ }),
            final(self).accounts@ == old(self).accounts@,
    {
        let mut out: Vec<CommitRequest> = Vec::new();
        std::mem::swap(&mut out, &mut self.outbox);
        assert(self@.sealed =~= Seq::<int>::empty());
        out
    }
}

/// Whether `a` and `b` hold the same bytes.
pub fn bytes_eq(a: &Vec<u8>, b: &Vec<u8>) -> (r: bool)
    ensures
        r == (a@ == b@),
{
    if a.len() != b.len() {
        return false;
    }
    let mut i: usize = 0;
    while i < a.len()
        invariant
            i <= a@.len(),
            a@.len() == b@.len(),
            forall|j: int| 0 <= j < i ==> a@[j] == b@[j],
        decreases a@.len() - i,
    {
        if a[i] != b[i] {
            return false;
        }
        i = i + 1;
    }
    assert(a@ =~= b@);
    true
}

} // verus!

verus! {

/// Whether a block is in progress after `reqs`, starting with one in
/// progress exactly when `open` holds.
pub open spec fn block_open(open: bool, reqs: Seq<StateKeeperRequest>) -> bool
    decreases reqs.len(),
{
    if reqs.len() == 0 {
        open
    } else {
        match reqs.last() {
            StateKeeperRequest::ExecuteMiniBlock(_) => true,
            StateKeeperRequest::SealBlock => false,
            StateKeeperRequest::GetAccount(_) => block_open(open, reqs.drop_last()),
        }
    }
}

/// Every `SealBlock` of `reqs` comes after at least one `ExecuteMiniBlock`
/// since the previous seal.
pub open spec fn seals_preceded(open: bool, reqs: Seq<StateKeeperRequest>) -> bool
    decreases reqs.len(),
{
    if reqs.len() == 0 {
        true
    } else {
        seals_preceded(open, reqs.drop_last()) && (reqs.last() is SealBlock ==> block_open(
            open,
            reqs.drop_last(),
        ))
    }
}

/// Seal ordering: when each seal of `reqs` follows at least one mini-block
/// since the previous seal, and the block numbers do not run out, every
/// request is accepted and the output channel gains exactly one block per
/// seal, numbered in the order in which the seals were issued.
pub proof fn lemma_seal_order(v: ProtocolView, reqs: Seq<StateKeeperRequest>)
    requires
        v.phase != Phase::Stopped,
        seals_preceded(v.phase == Phase::Accumulating, reqs),
        v.block_number + count_seals(reqs) <= MAX_BLOCK_NUMBER,
    ensures
        all_accepted(v, reqs),
        run(v, reqs).sealed == v.sealed + Seq::new(
            count_seals(reqs),
            |k: int| v.block_number + k + 1,
        ),
        run(v, reqs).block_number == v.block_number + count_seals(reqs),
        run(v, reqs).phase == if block_open(v.phase == Phase::Accumulating, reqs) {
            Phase::Accumulating
        } else {
            Phase::Idle
        },
    decreases reqs.len(),
{
    if reqs.len() == 0 {
        assert(v.sealed + Seq::new(0, |k: int| v.block_number + k + 1) =~= v.sealed);
    } else {
        let prev = reqs.drop_last();
        lemma_seal_order(v, prev);
        let n = count_seals(prev);
        if reqs.last() is SealBlock {
            assert(v.sealed + Seq::new(n + 1, |k: int| v.block_number + k + 1) =~= (v.sealed
                + Seq::new(n, |k: int| v.block_number + k + 1)).push(v.block_number + n + 1));
        }
    }
}

/// Two answers that describe the same account.
pub open spec fn same_answer(a: Option<Account>, b: Option<Account>) -> bool {
    match (a, b) {
        (None, None) => true,
        (Some(x), Some(y)) => x.address@ == y.address@ && x.nonce == y.nonce && x.balances@
            == y.balances@,
        _ => false,
    }
}

/// Repeated account queries agree: an answer is fixed by the account table
/// and the address alone, and handling a request never changes the table.
pub proof fn lemma_get_account_idempotent(
    accounts: Seq<(u32, Account)>,
    address: Seq<u8>,
    a: Option<Account>,
    b: Option<Account>,
)
    requires
        answers(accounts, address, a),
        answers(accounts, address, b),
    ensures
        same_answer(a, b),
{
}

} // verus!

verus! {

/// The account that a `GetAccount` answer stands for: an absent account is
/// the empty account at the address asked for.
pub fn resolve_account(found: Option<Account>, address: &AccountAddress) -> (r: Account)
    ensures
        match found {
            Some(a) => r == a,
            None => r.address@ == address@ && r.nonce == 0 && r.balances@.len() == 0 && r.wf(),
        },
{
    match found {
        Some(a) => a,
        None => Account::default_with_address(address),
    }
}

} // verus!

verus! {

/// A mini-block executed on an empty block in progress and then sealed
/// reaches the output channel unchanged: its deposits and transactions, in
/// their order, make up the one block that the seal emits. What the block
/// then does to balances is the state keeper's own rule.
pub proof fn lemma_executed_block_is_sealed(
    s0: StateKeeper,
    block: ProposedBlock,
    s1: StateKeeper,
    r1: Result<StateKeeperResponse, ProtocolError>,
    s2: StateKeeper,
    r2: Result<StateKeeperResponse, ProtocolError>,
)
    requires
        s0@.phase != Phase::Stopped,
        s0@.pending_ops.len() == 0,
        s0@.pending_txs.len() == 0,
        s0.block_number < MAX_BLOCK_NUMBER,
        s1@ == step(s0@, StateKeeperRequest::ExecuteMiniBlock(block)),
        handled(s0, StateKeeperRequest::ExecuteMiniBlock(block), s1, r1),
        s2@ == step(s1@, StateKeeperRequest::SealBlock),
        handled(s1, StateKeeperRequest::SealBlock, s2, r2),
    ensures
        r2 == Ok::<StateKeeperResponse, ProtocolError>(
            StateKeeperResponse::Sealed((s0.block_number + 1) as u32),
        ),
        s2.outbox@.len() == s0.outbox@.len() + 1,
        s2.outbox@.last().block_number == s0.block_number + 1,
        s2.outbox@.last().priority_ops@ == block.priority_ops@,
        s2.outbox@.last().txs@ == block.txs@,
        s2@.phase == Phase::Idle,
{
    assert(s1@.pending_ops =~= block.priority_ops@);
    assert(s1@.pending_txs =~= block.txs@);
}

} // verus!

verus! {

/// Handling requests one by one follows `run`: where each view in `views`
/// is the `step` of the one before it under the matching request (as the
/// `ensures` of [`StateKeeper::handle`] gives), the last view is `run` of
/// the first over all the requests. With [`lemma_seal_order`], a sequence
/// of `handle` calls emits one block per seal, in issuance order.
pub proof fn lemma_handled_requests_run(views: Seq<ProtocolView>, reqs: Seq<StateKeeperRequest>)
    requires
        views.len() == reqs.len() + 1,
        forall|k: int| 0 <= k < reqs.len() ==> #[trigger] views[k + 1] == step(views[k], reqs[k]),
    ensures
        views.last() == run(views[0], reqs),
    decreases reqs.len(),
{
    if reqs.len() > 0 {
        let prev_views = views.drop_last();
        let prev = reqs.drop_last();
        assert forall|k: int| 0 <= k < prev.len() implies #[trigger] prev_views[k + 1] == step(
            prev_views[k],
            prev[k],
        ) by {
            assert(views[k + 1] == step(views[k], reqs[k]));
        }
        lemma_handled_requests_run(prev_views, prev);
        assert(views[reqs.len() as int] == step(views[reqs.len() - 1], reqs[reqs.len() - 1]));
    }
}

} // verus!
