use vstd::prelude::*;

use crate::types::{
    AccountAddress, Amount, EthAddress, FranklinTx, Nonce, TokenId, Transfer, TxBody, TxSignature,
    Withdraw,
    LEDGER_ADDRESS_LEN, ONCHAIN_ADDRESS_LEN,
};

verus! {

/// Leading byte of an encoded transfer.
pub const TRANSFER_TAG: u8 = 5;

/// Leading byte of an encoded withdrawal.
pub const WITHDRAW_TAG: u8 = 3;

/// The `n` low bytes of `x`, most significant first.
pub open spec fn be_bytes(x: nat, n: nat) -> Seq<u8>
    decreases n,
{
    if n == 0 {
        Seq::empty()
    } else {
        be_bytes(x / 256, (n - 1) as nat).push((x % 256) as u8)
    }
}

/// 256 to the power `n`.
pub open spec fn byte_bound(n: nat) -> nat
    decreases n,
{
    if n == 0 {
        1
    } else {
        256 * byte_bound((n - 1) as nat)
    }
}

/// The bytes that a ledger account signs for a transfer. The layout is this
/// library's own: a tag byte, the two addresses, then token, amount, fee and
/// nonce as fixed-width big-endian integers (2, 16, 16 and 4 bytes).
pub open spec fn transfer_message(t: Transfer) -> Seq<u8> {
    seq![TRANSFER_TAG] + t.from@ + t.to@ + be_bytes(t.token as nat, 2) + be_bytes(t.amount as nat, 16)
        + be_bytes(t.fee as nat, 16) + be_bytes(t.nonce as nat, 4)
}

/// The bytes that a ledger account signs for a withdrawal, in this library's
/// own layout: a tag byte, the ledger and on-chain addresses, then token,
/// amount, fee and nonce as in [`transfer_message`].
pub open spec fn withdraw_message(w: Withdraw) -> Seq<u8> {
    seq![WITHDRAW_TAG] + w.account@ + w.eth_address@ + be_bytes(w.token as nat, 2) + be_bytes(
        w.amount as nat,
        16,
    ) + be_bytes(w.fee as nat, 16) + be_bytes(w.nonce as nat, 4)
}

/// The bytes that a ledger account signs for a transaction.
pub open spec fn tx_message(b: TxBody) -> Seq<u8> {
    match b {
        TxBody::Transfer(t) => transfer_message(t),
        TxBody::Withdraw(w) => withdraw_message(w),
    }
}

/// The fields that a signature binds, as plain values.
pub open spec fn tx_fields_equal(a: TxBody, b: TxBody) -> bool {
    match (a, b) {
        (TxBody::Transfer(x), TxBody::Transfer(y)) => {
            &&& x.from@ == y.from@
            &&& x.to@ == y.to@
            &&& x.token == y.token
            &&& x.amount == y.amount
            &&& x.fee == y.fee
            &&& x.nonce == y.nonce
        },
        (TxBody::Withdraw(x), TxBody::Withdraw(y)) => {
            &&& x.account@ == y.account@
            &&& x.eth_address@ == y.eth_address@
            &&& x.token == y.token
            &&& x.amount == y.amount
            &&& x.fee == y.fee
            &&& x.nonce == y.nonce
        },
        _ => false,
    }
}

/// Addresses of a transaction have their fixed lengths.
pub open spec fn tx_wf(b: TxBody) -> bool {
    match b {
        TxBody::Transfer(t) => t.from.wf() && t.to.wf(),
        TxBody::Withdraw(w) => w.account.wf() && w.eth_address.wf(),
    }
}

pub proof fn lemma_be_bytes_len(x: nat, n: nat)
    ensures
        be_bytes(x, n).len() == n,
    decreases n,
{
    if n > 0 {
        lemma_be_bytes_len(x / 256, (n - 1) as nat);
    }
}

/// Two values below 256^n have the same `n` bytes only when they are equal.
pub proof fn lemma_be_bytes_injective(x: nat, y: nat, n: nat)
    requires
        x < byte_bound(n),
        y < byte_bound(n),
        be_bytes(x, n) == be_bytes(y, n),
    ensures
        x == y,
    decreases n,
{
    if n > 0 {
        let bx = be_bytes(x / 256, (n - 1) as nat);
        let by = be_bytes(y / 256, (n - 1) as nat);
        assert(bx.push((x % 256) as u8).last() == (x % 256) as u8);
        assert(by.push((y % 256) as u8).last() == (y % 256) as u8);
        assert(bx =~= bx.push((x % 256) as u8).drop_last());
        assert(by =~= by.push((y % 256) as u8).drop_last());
        let b = byte_bound((n - 1) as nat);
        assert(x / 256 < b) by (nonlinear_arith)
            requires
                x < 256 * b,
        ;
        assert(y / 256 < b) by (nonlinear_arith)
            requires
                y < 256 * b,
        ;
        lemma_be_bytes_injective(x / 256, y / 256, (n - 1) as nat);
    }
}

proof fn lemma_byte_bounds()
    ensures
        byte_bound(2) == 0x1_0000,
        byte_bound(4) == 0x1_0000_0000,
        byte_bound(16) == 0x1_0000_0000_0000_0000_0000_0000_0000_0000,
{
    reveal_with_fuel(byte_bound, 17);
}

/// Splits `a + b == c + d` where `b` and `d` have the same length.
proof fn lemma_split_right(a: Seq<u8>, b: Seq<u8>, c: Seq<u8>, d: Seq<u8>)
    requires
        a + b == c + d,
        b.len() == d.len(),
    ensures
        a == c,
        b == d,
{
    assert(a =~= (a + b).subrange(0, a.len() as int));
    assert(c =~= (c + d).subrange(0, c.len() as int));
    assert(b =~= (a + b).subrange(a.len() as int, (a + b).len() as int));
    assert(d =~= (c + d).subrange(c.len() as int, (c + d).len() as int));
}

/// Splits the tail of an encoding: the integers `x` and `y` of width `n`.
proof fn lemma_split_int(a: Seq<u8>, x: nat, c: Seq<u8>, y: nat, n: nat)
    requires
        a + be_bytes(x, n) == c + be_bytes(y, n),
        x < byte_bound(n),
        y < byte_bound(n),
    ensures
        a == c,
        x == y,
{
    lemma_be_bytes_len(x, n);
    lemma_be_bytes_len(y, n);
    lemma_split_right(a, be_bytes(x, n), c, be_bytes(y, n));
    lemma_be_bytes_injective(x, y, n);
}

/// Equal messages come from equal fields: a signature over a transaction's
/// encoding binds every field, so a change to any field changes the bytes
/// that the signature has to match.
pub proof fn lemma_message_binds_fields(a: TxBody, b: TxBody)
    requires
        tx_wf(a),
        tx_wf(b),
        tx_message(a) == tx_message(b),
    ensures
        tx_fields_equal(a, b),
{
    lemma_byte_bounds();
    let ma = tx_message(a);
    assert(ma[0] == tx_message(b)[0]);
    match (a, b) {
        (TxBody::Transfer(x), TxBody::Transfer(y)) => {
            let head_a = seq![TRANSFER_TAG] + x.from@ + x.to@ + be_bytes(x.token as nat, 2) + be_bytes(x.amount as nat, 16);
            let head_b = seq![TRANSFER_TAG] + y.from@ + y.to@ + be_bytes(y.token as nat, 2) + be_bytes(y.amount as nat, 16);
            lemma_split_int(head_a + be_bytes(x.fee as nat, 16), x.nonce as nat, head_b + be_bytes(y.fee as nat, 16), y.nonce as nat, 4);
            lemma_split_int(head_a, x.fee as nat, head_b, y.fee as nat, 16);
            let front_a = seq![TRANSFER_TAG] + x.from@ + x.to@ + be_bytes(x.token as nat, 2);
            let front_b = seq![TRANSFER_TAG] + y.from@ + y.to@ + be_bytes(y.token as nat, 2);
            lemma_split_int(front_a, x.amount as nat, front_b, y.amount as nat, 16);
            lemma_split_int(seq![TRANSFER_TAG] + x.from@ + x.to@, x.token as nat, seq![TRANSFER_TAG] + y.from@ + y.to@, y.token as nat, 2);
            lemma_split_right(seq![TRANSFER_TAG] + x.from@, x.to@, seq![TRANSFER_TAG] + y.from@, y.to@);
            lemma_split_right(seq![TRANSFER_TAG], x.from@, seq![TRANSFER_TAG], y.from@);
        },
        (TxBody::Withdraw(x), TxBody::Withdraw(y)) => {
            let head_a = seq![WITHDRAW_TAG] + x.account@ + x.eth_address@ + be_bytes(x.token as nat, 2) + be_bytes(x.amount as nat, 16);
            let head_b = seq![WITHDRAW_TAG] + y.account@ + y.eth_address@ + be_bytes(y.token as nat, 2) + be_bytes(y.amount as nat, 16);
            lemma_split_int(head_a + be_bytes(x.fee as nat, 16), x.nonce as nat, head_b + be_bytes(y.fee as nat, 16), y.nonce as nat, 4);
            lemma_split_int(head_a, x.fee as nat, head_b, y.fee as nat, 16);
            let front_a = seq![WITHDRAW_TAG] + x.account@ + x.eth_address@ + be_bytes(x.token as nat, 2);
            let front_b = seq![WITHDRAW_TAG] + y.account@ + y.eth_address@ + be_bytes(y.token as nat, 2);
            lemma_split_int(front_a, x.amount as nat, front_b, y.amount as nat, 16);
            lemma_split_int(seq![WITHDRAW_TAG] + x.account@ + x.eth_address@, x.token as nat, seq![WITHDRAW_TAG] + y.account@ + y.eth_address@, y.token as nat, 2);
            lemma_split_right(seq![WITHDRAW_TAG] + x.account@, x.eth_address@, seq![WITHDRAW_TAG] + y.account@, y.eth_address@);
            lemma_split_right(seq![WITHDRAW_TAG], x.account@, seq![WITHDRAW_TAG], y.account@);
        },
        (TxBody::Transfer(x), TxBody::Withdraw(y)) => {
            assert(ma[0] == TRANSFER_TAG);
            assert(tx_message(b)[0] == WITHDRAW_TAG);
        },
        (TxBody::Withdraw(x), TxBody::Transfer(y)) => {
            assert(ma[0] == WITHDRAW_TAG);
            assert(tx_message(b)[0] == TRANSFER_TAG);
        },
    }
}

/// Appends the `n` low bytes of `x` to `out`, most significant first.
pub fn push_be_bytes(out: &mut Vec<u8>, x: u128, n: usize)
    ensures
        final(out)@ == old(out)@ + be_bytes(x as nat, n as nat),
    decreases n,
{
    if n > 0 {
        push_be_bytes(out, x / 256, n - 1);
        out.push((x % 256) as u8);
        assert(out@ =~= old(out)@ + be_bytes(x as nat, n as nat));
    } else {
        assert(out@ =~= old(out)@ + be_bytes(x as nat, n as nat));
    }
}

/// Appends all of `bytes` to `out`.
pub fn push_all(out: &mut Vec<u8>, bytes: &Vec<u8>)
    ensures
        final(out)@ == old(out)@ + bytes@,
{
    let mut i: usize = 0;
    while i < bytes.len()
        invariant
            i <= bytes@.len(),
            out@ == old(out)@ + bytes@.subrange(0, i as int),
        decreases bytes@.len() - i,
    {
        out.push(bytes[i]);
        i = i + 1;
        assert(out@ =~= old(out)@ + bytes@.subrange(0, i as int));
    }
    assert(bytes@.subrange(0, i as int) =~= bytes@);
}

impl Transfer {
    /// The bytes that the sender's credential signs.
    pub fn get_bytes(&self) -> (r: Vec<u8>)
        ensures
            r@ == transfer_message(*self),
    {
        let mut out: Vec<u8> = Vec::new();
        out.push(TRANSFER_TAG);
        push_all(&mut out, &self.from.data);
        push_all(&mut out, &self.to.data);
        push_be_bytes(&mut out, self.token as u128, 2);
        push_be_bytes(&mut out, self.amount, 16);
        push_be_bytes(&mut out, self.fee, 16);
        push_be_bytes(&mut out, self.nonce as u128, 4);
        assert(out@ =~= transfer_message(*self));
        out
    }
}

impl Withdraw {
    /// The bytes that the account's credential signs.
    pub fn get_bytes(&self) -> (r: Vec<u8>)
        ensures
            r@ == withdraw_message(*self),
    {
        let mut out: Vec<u8> = Vec::new();
        out.push(WITHDRAW_TAG);
        push_all(&mut out, &self.account.data);
        push_all(&mut out, &self.eth_address.data);
        push_be_bytes(&mut out, self.token as u128, 2);
        push_be_bytes(&mut out, self.amount, 16);
        push_be_bytes(&mut out, self.fee, 16);
        push_be_bytes(&mut out, self.nonce as u128, 4);
        assert(out@ =~= withdraw_message(*self));
        out
    }
}

impl TxBody {
    /// The bytes that the source account's credential signs.
    pub fn get_bytes(&self) -> (r: Vec<u8>)
        ensures
            r@ == tx_message(*self),
    {
        match self {
            TxBody::Transfer(t) => t.get_bytes(),
            TxBody::Withdraw(w) => w.get_bytes(),
        }
    }
}

} // verus!

verus! {

impl FranklinTx {
    /// The transaction made of `body` and the signature over its encoding.
    pub fn new(body: TxBody, signature: TxSignature) -> (r: FranklinTx)
        ensures
            r.body == body,
            r.signature == signature,
    {
        FranklinTx { body, signature }
    }

    /// The bytes that the signature of this transaction has to match.
    pub fn get_bytes(&self) -> (r: Vec<u8>)
        ensures
            r@ == tx_message(self.body),
    {
        self.body.get_bytes()
    }
}

} // verus!
