use vstd::prelude::*;

verus! {

/// Amount of a token, in its smallest unit (wei for ether).
pub type Amount = u128;

/// Identifier of a token on the ledger.
pub type TokenId = u16;

/// Per-account sequence number of a ledger transaction.
pub type Nonce = u32;

/// Length in bytes of a ledger-native address.
pub const LEDGER_ADDRESS_LEN: usize = 27;

/// Length in bytes of an on-chain address.
pub const ONCHAIN_ADDRESS_LEN: usize = 20;

/// Sequence of `n` zero bytes.
pub fn zero_bytes(n: usize) -> (r: Vec<u8>)
    ensures
        r@ == Seq::new(n as nat, |i: int| 0u8),
{
    let mut data: Vec<u8> = Vec::new();
    while data.len() < n
        invariant
            data@.len() <= n,
            forall|i: int| 0 <= i < data@.len() ==> data@[i] == 0u8,
        decreases n - data@.len(),
    {
        data.push(0u8);
    }
    assert(data@ =~= Seq::new(n as nat, |i: int| 0u8));
    data
}

/// Address of an account on the ledger.
#[derive(Clone, Debug)]
pub struct AccountAddress {
    pub data: Vec<u8>,
}

impl View for AccountAddress {
    type V = Seq<u8>;

    open spec fn view(&self) -> Seq<u8> {
        self.data@
    }
}

impl AccountAddress {
    pub open spec fn wf(&self) -> bool {
        self@.len() == LEDGER_ADDRESS_LEN
    }

    /// A copy of this address.
    pub fn duplicate(&self) -> (r: AccountAddress)
        ensures
            r@ == self@,
    {
        AccountAddress { data: self.data.clone() }
    }

    /// The all-zero ledger address.
    pub fn zero() -> (r: AccountAddress)
        ensures
            r.wf(),
            r@ == Seq::new(LEDGER_ADDRESS_LEN as nat, |i: int| 0u8),
    {
        AccountAddress { data: zero_bytes(LEDGER_ADDRESS_LEN) }
    }
}

/// Address of an account on the settlement chain.
#[derive(Clone, Debug)]
pub struct EthAddress {
    pub data: Vec<u8>,
}

impl View for EthAddress {
    type V = Seq<u8>;

    open spec fn view(&self) -> Seq<u8> {
        self.data@
    }
}

impl EthAddress {
    pub open spec fn wf(&self) -> bool {
        self@.len() == ONCHAIN_ADDRESS_LEN
    }

    /// A copy of this address.
    pub fn duplicate(&self) -> (r: EthAddress)
        ensures
            r@ == self@,
    {
        EthAddress { data: self.data.clone() }
    }

    /// The all-zero on-chain address.
    pub fn zero() -> (r: EthAddress)
        ensures
            r.wf(),
            r@ == Seq::new(ONCHAIN_ADDRESS_LEN as nat, |i: int| 0u8),
    {
        EthAddress { data: zero_bytes(ONCHAIN_ADDRESS_LEN) }
    }
}

/// A deposit from the settlement chain, waiting to be executed on the ledger.
#[derive(Clone, Debug)]
pub struct PriorityOp {
    pub token: TokenId,
    pub amount: Amount,
    pub fee: Amount,
    pub to: AccountAddress,
}

/// The unsigned fields of a transfer between two ledger accounts.
#[derive(Clone, Debug)]
pub struct Transfer {
    pub from: AccountAddress,
    pub to: AccountAddress,
    pub token: TokenId,
    pub amount: Amount,
    pub fee: Amount,
    pub nonce: Nonce,
}

/// The unsigned fields of a withdrawal from a ledger account to the chain.
#[derive(Clone, Debug)]
pub struct Withdraw {
    pub account: AccountAddress,
    pub eth_address: EthAddress,
    pub token: TokenId,
    pub amount: Amount,
    pub fee: Amount,
    pub nonce: Nonce,
}

/// The fields of a ledger transaction, before or after signing.
#[derive(Clone, Debug)]
pub enum TxBody {
    Transfer(Transfer),
    Withdraw(Withdraw),
}

/// A signature produced by a ledger account's credential.
#[derive(Clone, Debug)]
pub struct TxSignature {
    pub bytes: Vec<u8>,
}

/// A signed ledger transaction: its fields and the signature over their encoding.
#[derive(Clone, Debug)]
pub struct FranklinTx {
    pub body: TxBody,
    pub signature: TxSignature,
}

/// The balance of one token held by a ledger account.
#[derive(Clone, Copy, Debug)]
pub struct Balance {
    pub token: TokenId,
    pub amount: Amount,
}

/// A ledger account as the state keeper reports it.
#[derive(Clone, Debug)]
pub struct Account {
    pub address: AccountAddress,
    pub nonce: Nonce,
    pub balances: Vec<Balance>,
}

impl Account {
    /// Each token has at most one balance entry.
    pub open spec fn wf(&self) -> bool {
        unique_tokens(self.balances@)
    }

    /// A copy of this account.
    pub fn duplicate(&self) -> (r: Account)
        ensures
            r.address@ == self.address@,
            r.nonce == self.nonce,
            r.balances@ == self.balances@,
    {
        Account { address: self.address.duplicate(), nonce: self.nonce, balances: self.balances.clone() }
    }

    /// The empty account at `address`: no balances, nonce zero.
    pub fn default_with_address(address: &AccountAddress) -> (r: Account)
        ensures
            r.address@ == address@,
            r.nonce == 0,
            r.balances@.len() == 0,
            r.wf(),
    {
        Account { address: address.duplicate(), nonce: 0, balances: Vec::new() }
    }

    /// The balance of `token`; zero where the account holds none.
    pub open spec fn balance_of(&self, token: TokenId) -> Amount {
        balance_in(self.balances@, token)
    }

    /// The balance of `token`; zero where the account holds none.
    pub fn get_balance(&self, token: TokenId) -> (r: Amount)
        ensures
            r == self.balance_of(token),
            self.wf() ==> forall|i: int|
                0 <= i < self.balances@.len() && #[trigger] self.balances@[i].token == token ==> r
                    == self.balances@[i].amount,
            (forall|i: int| 0 <= i < self.balances@.len() ==> #[trigger] self.balances@[i].token != token)
                ==> r == 0,
    {
        proof {
            if self.wf() {
                assert forall|i: int|
                    0 <= i < self.balances@.len() && #[trigger] self.balances@[i].token
                        == token implies balance_in(self.balances@, token)
                    == self.balances@[i].amount by {
                    lemma_balance_entry(self.balances@, token, i);
                }
            }
            if forall|i: int| 0 <= i < self.balances@.len() ==> #[trigger] self.balances@[i].token != token {
                lemma_balance_absent(self.balances@, token);
            }
        }
        let mut i: usize = self.balances.len();
        assert(self.balances@.subrange(0, i as int) =~= self.balances@);
        while i > 0
            invariant
                i <= self.balances@.len(),
                balance_in(self.balances@, token) == balance_in(self.balances@.subrange(0, i as int), token),
            decreases i,
        {
            let b = self.balances[i - 1];
            if b.token == token {
                proof {
                    assert(self.balances@.subrange(0, i as int).drop_last() =~= self.balances@.subrange(0, i - 1));
                }
                return b.amount;
            }
            assert(self.balances@.subrange(0, i as int).drop_last() =~= self.balances@.subrange(0, i - 1));
            i = i - 1;
        }
        assert(self.balances@.subrange(0, 0) =~= Seq::<Balance>::empty());
        0
    }
}

/// The last entry for `token` in `bs`, or zero.
pub open spec fn balance_in(bs: Seq<Balance>, token: TokenId) -> Amount
    decreases bs.len(),
{
    if bs.len() == 0 {
        0
    } else if bs.last().token == token {
        bs.last().amount
    } else {
        balance_in(bs.drop_last(), token)
    }
}

/// No two entries of `bs` are for the same token.
pub open spec fn unique_tokens(bs: Seq<Balance>) -> bool {
    forall|i: int, j: int| 0 <= i < j < bs.len() ==> #[trigger] bs[i].token != #[trigger] bs[j].token
}

/// With unique tokens, the balance of a token is its one entry.
pub proof fn lemma_balance_entry(bs: Seq<Balance>, token: TokenId, i: int)
    requires
        unique_tokens(bs),
        0 <= i < bs.len(),
        bs[i].token == token,
    ensures
        balance_in(bs, token) == bs[i].amount,
    decreases bs.len(),
{
    if i < bs.len() - 1 {
        assert(bs[i].token != bs[bs.len() - 1].token);
        let rest = bs.drop_last();
        assert(rest[i] == bs[i]);
        assert forall|a: int, b: int| 0 <= a < b < rest.len() implies #[trigger] rest[a].token
            != #[trigger] rest[b].token by {
            assert(rest[a] == bs[a] && rest[b] == bs[b]);
        }
        lemma_balance_entry(rest, token, i);
    }
}

/// A token without an entry has balance zero.
pub proof fn lemma_balance_absent(bs: Seq<Balance>, token: TokenId)
    requires
        forall|i: int| 0 <= i < bs.len() ==> #[trigger] bs[i].token != token,
    ensures
        balance_in(bs, token) == 0,
    decreases bs.len(),
{
    if bs.len() > 0 {
        let rest = bs.drop_last();
        assert forall|i: int| 0 <= i < rest.len() implies #[trigger] rest[i].token != token by {
            assert(rest[i] == bs[i]);
        }
        lemma_balance_absent(rest, token);
    }
}

} // verus!
