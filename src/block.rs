use vstd::prelude::*;

use crate::types::{
    AccountAddress, FranklinTx, PriorityOp, Transfer, TxBody, TxSignature, LEDGER_ADDRESS_LEN,
};

verus! {

/// What the state keeper executes as one mini-block: deposits first, then
/// signed transactions, each in the given order.
pub struct ProposedBlock {
    pub priority_ops: Vec<PriorityOp>,
    pub txs: Vec<FranklinTx>,
}

impl ProposedBlock {
    /// The block of `priority_ops` and `txs`, in their order; nothing is checked.
    pub fn new(priority_ops: Vec<PriorityOp>, txs: Vec<FranklinTx>) -> (r: ProposedBlock)
        ensures
            r.priority_ops@ == priority_ops@,
            r.txs@ == txs@,
    {
        ProposedBlock { priority_ops, txs }
    }
}

/// The all-zero ledger address, as bytes.
pub open spec fn zero_ledger_address() -> Seq<u8> {
    Seq::new(LEDGER_ADDRESS_LEN as nat, |i: int| 0u8)
}

/// Whether `b` is the transfer of nothing between zero addresses, with every
/// field zero.
pub open spec fn is_zero_transfer(b: TxBody) -> bool {
    b matches TxBody::Transfer(t) && t.from@ == zero_ledger_address() && t.to@
        == zero_ledger_address() && t.token == 0 && t.amount == 0 && t.fee == 0 && t.nonce == 0
}

/// A transfer of nothing between zero addresses, with every field zero.
pub fn new_transfer() -> (r: TxBody)
    ensures
        is_zero_transfer(r),
{
    TxBody::Transfer(
        Transfer {
            from: AccountAddress::zero(),
            to: AccountAddress::zero(),
            token: 0,
            amount: 0,
            fee: 0,
            nonce: 0,
        },
    )
}

/// A block of no deposits and one transaction: the zero transfer, signed
/// with `signature`, which the caller's credential made over its bytes.
pub fn dummy_proposed_block(signature: TxSignature) -> (r: ProposedBlock)
    ensures
        r.priority_ops@.len() == 0,
        r.txs@.len() == 1,
        is_zero_transfer(r.txs@[0].body),
        r.txs@[0].signature == signature,
{
    let mut txs: Vec<FranklinTx> = Vec::new();
    txs.push(FranklinTx { body: new_transfer(), signature });
    ProposedBlock { priority_ops: Vec::new(), txs }
}

} // verus!
