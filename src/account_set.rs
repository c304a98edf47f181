use vstd::prelude::*;

use crate::encoding::tx_wf;
use crate::types::{
    AccountAddress, Amount, EthAddress, Nonce, PriorityOp, TokenId, Transfer, TxBody, Withdraw,
    LEDGER_ADDRESS_LEN, ONCHAIN_ADDRESS_LEN,
};

verus! {

/// Index of an account in the on-chain half of an [`AccountSet`].
pub type ETHAccountSetId = usize;

/// Index of an account in the ledger half of an [`AccountSet`].
pub type ZKSyncAccountSetId = usize;

/// A reference into one of the two halves of an [`AccountSet`].
#[derive(Clone, Copy, Debug)]
pub enum AccountSetId {
    ETHAccount(ETHAccountSetId),
    ZKSync(ZKSyncAccountSetId),
}

/// An account on the settlement chain. Its key and transport stay with the
/// caller, under the same index.
#[derive(Clone, Debug)]
pub struct EthereumAccount {
    pub address: EthAddress,
}

/// An account on the ledger. Its signing key stays with the caller, under the
/// same index.
#[derive(Clone, Debug)]
pub struct ZksyncAccount {
    pub address: AccountAddress,
}

/// The accounts that a scenario works with: on-chain and ledger accounts, each
/// reached by its index.
pub struct AccountSet {
    pub eth_accounts: Vec<EthereumAccount>,
    pub zksync_accounts: Vec<ZksyncAccount>,
}

impl AccountSet {
    /// Every address has its fixed length.
    pub open spec fn wf(&self) -> bool {
        &&& forall|i: int|
            0 <= i < self.eth_accounts@.len() ==> #[trigger] self.eth_address(i).len()
                == ONCHAIN_ADDRESS_LEN
        &&& forall|i: int|
            0 <= i < self.zksync_accounts@.len() ==> #[trigger] self.zksync_address(i).len()
                == LEDGER_ADDRESS_LEN
    }

    pub open spec fn eth_address(&self, i: int) -> Seq<u8> {
        self.eth_accounts@[i].address@
    }

    pub open spec fn zksync_address(&self, i: int) -> Seq<u8> {
        self.zksync_accounts@[i].address@
    }

    pub open spec fn valid_id(&self, id: AccountSetId) -> bool {
        match id {
            AccountSetId::ETHAccount(i) => i < self.eth_accounts@.len(),
            AccountSetId::ZKSync(i) => i < self.zksync_accounts@.len(),
        }
    }

    /// Whether `id` refers to an account of this set.
    pub fn contains(&self, id: AccountSetId) -> (r: bool)
        ensures
            r == self.valid_id(id),
    {
        match id {
            AccountSetId::ETHAccount(i) => i < self.eth_accounts.len(),
            AccountSetId::ZKSync(i) => i < self.zksync_accounts.len(),
        }
    }

    /// The deposit of `amount` of `token` from on-chain account `from` to
    /// ledger account `to`; the caller submits it on-chain from `from`, which
    /// also pays `fee`.
    pub fn deposit(
        &self,
        from: ETHAccountSetId,
        to: ZKSyncAccountSetId,
        token_id: TokenId,
        amount: Amount,
        fee: Amount,
    ) -> (r: PriorityOp)
        requires
            from < self.eth_accounts@.len(),
            to < self.zksync_accounts@.len(),
        ensures
            r.token == token_id,
            r.amount == amount,
            r.fee == fee,
            r.to@ == self.zksync_address(to as int),
            self.wf() ==> r.to.wf(),
    {
        proof {
            if self.wf() {
                assert(self.zksync_address(to as int).len() == LEDGER_ADDRESS_LEN);
            }
        }
        PriorityOp {
            token: token_id,
            amount,
            fee,
            to: self.zksync_accounts[to].address.duplicate(),
        }
    }

    /// The transfer from ledger account `from` to ledger account `to`, ready
    /// for `from`'s credential to sign.
    pub fn transfer(
        &self,
        from: ZKSyncAccountSetId,
        to: ZKSyncAccountSetId,
        token_id: TokenId,
        amount: Amount,
        fee: Amount,
        nonce: Nonce,
    ) -> (r: TxBody)
        requires
            from < self.zksync_accounts@.len(),
            to < self.zksync_accounts@.len(),
        ensures
            self.wf() ==> tx_wf(r),
            r matches TxBody::Transfer(t) && t.from@ == self.zksync_address(from as int)
                && t.to@ == self.zksync_address(to as int) && t.token == token_id && t.amount
                == amount && t.fee == fee && t.nonce == nonce,
    {
        proof {
            if self.wf() {
                assert(self.zksync_address(from as int).len() == LEDGER_ADDRESS_LEN);
                assert(self.zksync_address(to as int).len() == LEDGER_ADDRESS_LEN);
            }
        }
        TxBody::Transfer(
            Transfer {
                from: self.zksync_accounts[from].address.duplicate(),
                to: self.zksync_accounts[to].address.duplicate(),
                token: token_id,
                amount,
                fee,
                nonce,
            },
        )
    }

    /// The withdrawal from ledger account `from` to on-chain account `to`,
    /// ready for `from`'s credential to sign.
    pub fn withdraw(
        &self,
        from: ZKSyncAccountSetId,
        to: ETHAccountSetId,
        token_id: TokenId,
        amount: Amount,
        fee: Amount,
        nonce: Nonce,
    ) -> (r: TxBody)
        requires
            from < self.zksync_accounts@.len(),
            to < self.eth_accounts@.len(),
        ensures
            self.wf() ==> tx_wf(r),
            r matches TxBody::Withdraw(w) && w.account@ == self.zksync_address(from as int)
                && w.eth_address@ == self.eth_address(to as int) && w.token == token_id
                && w.amount == amount && w.fee == fee && w.nonce == nonce,
    {
        proof {
            if self.wf() {
                assert(self.zksync_address(from as int).len() == LEDGER_ADDRESS_LEN);
                assert(self.eth_address(to as int).len() == ONCHAIN_ADDRESS_LEN);
            }
        }
        TxBody::Withdraw(
            Withdraw {
                account: self.zksync_accounts[from].address.duplicate(),
                eth_address: self.eth_accounts[to].address.duplicate(),
                token: token_id,
                amount,
                fee,
                nonce,
            },
        )
    }
}

} // verus!
