//! Transaction records. A record is made with no fee and no signature; the
//! fee is set once, from the record's own size, and the signature is made
//! over the record that carries that fee.

use crate::keypair::key_error;
use crate::keypair::PublicKey;
use crate::result::Error;
use vstd::prelude::*;
use vstd::slice::slice_to_vec;

verus! {

/// The length of the all-zero signature that stands in for the real one
/// while a record's size is measured.
pub const FEE_SIGNATURE_LENGTH: usize = 64;

/// What a transaction does, with what only that kind of transaction
/// carries.
#[derive(Clone, Copy, Debug, PartialEq, Eq, Structural)]
pub enum TxnKind {
    /// Burns tokens of the payer into data credits of the payee.
    TokenBurn { memo: u64 },
    /// Moves security tokens from the payer to the payee.
    SecurityExchange,
}

/// What the network says of an account: the nonce that its last ordinary
/// transaction had, pending ones included, and the same for its last
/// security-token transaction.
#[derive(Clone, Copy, Debug, PartialEq, Eq, Structural)]
pub struct Account {
    pub speculative_nonce: u64,
    pub speculative_sec_nonce: u64,
}

/// A transaction record.
#[derive(Debug, PartialEq, Eq)]
pub struct Transaction {
    pub kind: TxnKind,
    /// The paying account's key, in binary.
    pub payer: Vec<u8>,
    /// The receiving account's key, in binary.
    pub payee: Vec<u8>,
    /// In the token's smallest unit.
    pub amount: u64,
    pub nonce: u64,
    pub fee: u64,
    pub signature: Vec<u8>,
}

/// A transaction record as a mathematical value.
pub struct TransactionView {
    pub kind: TxnKind,
    pub payer: Seq<u8>,
    pub payee: Seq<u8>,
    pub amount: u64,
    pub nonce: u64,
    pub fee: u64,
    pub signature: Seq<u8>,
}

impl View for Transaction {
    type V = TransactionView;

    open spec fn view(&self) -> TransactionView {
        TransactionView {
            kind: self.kind,
            payer: self.payer@,
            payee: self.payee@,
            amount: self.amount,
            nonce: self.nonce,
            fee: self.fee,
            signature: self.signature@,
        }
    }
}

/// The counter of an account that transactions of `kind` advance.
pub open spec fn account_nonce(kind: TxnKind, account: Account) -> u64 {
    match kind {
        TxnKind::TokenBurn { .. } => account.speculative_nonce,
        TxnKind::SecurityExchange => account.speculative_sec_nonce,
    }
}

/// The record of a new transaction: the nonce follows the account's, and
/// there is no fee and no signature yet. There is no such record where the
/// account's nonce is the last one.
pub open spec fn new_transaction(
    kind: TxnKind,
    payer: Seq<u8>,
    payee: Seq<u8>,
    amount: u64,
    account: Account,
) -> Result<TransactionView, Error> {
    if account_nonce(kind, account) == u64::MAX {
        Err(Error::NonceExhausted)
    } else {
        Ok(
            TransactionView {
                kind,
                payer,
                payee,
                amount,
                nonce: (account_nonce(kind, account) + 1) as u64,
                fee: 0,
                signature: Seq::empty(),
            },
        )
    }
}

/// The record whose size decides the fee of `txn`: `txn` without a fee and
/// with an all-zero signature of the usual length.
pub open spec fn fee_shape(txn: TransactionView) -> TransactionView {
    TransactionView {
        fee: 0,
        signature: Seq::new(FEE_SIGNATURE_LENGTH as nat, |i: int| 0u8),
        ..txn
    }
}

/// `txn` with the fee `fee`.
pub open spec fn with_fee(txn: TransactionView, fee: u64) -> TransactionView {
    TransactionView { fee, ..txn }
}

/// `txn` with the signature `signature`.
pub open spec fn with_signature(txn: TransactionView, signature: Seq<u8>) -> TransactionView {
    TransactionView { signature, ..txn }
}

/// The view of a result that holds a record.
pub open spec fn transaction_result(r: Result<Transaction, Error>) -> Result<
    TransactionView,
    Error,
> {
    match r {
        Ok(t) => Ok(t@),
        Err(e) => Err(e),
    }
}

/// The nonce of a new record is one more than the account's: than its
/// ordinary nonce for a burn, than its security nonce for a transfer of
/// security tokens.
pub proof fn lemma_nonce_follows_account(
    kind: TxnKind,
    payer: Seq<u8>,
    payee: Seq<u8>,
    amount: u64,
    account: Account,
)
    ensures
        new_transaction(kind, payer, payee, amount, account) matches Ok(txn) ==> {
            &&& kind is TokenBurn ==> txn.nonce == account.speculative_nonce + 1
            &&& kind is SecurityExchange ==> txn.nonce == account.speculative_sec_nonce + 1
        },
        new_transaction(kind, payer, payee, amount, account) is Err <==> (match kind {
            TxnKind::TokenBurn { .. } => account.speculative_nonce == u64::MAX,
            TxnKind::SecurityExchange => account.speculative_sec_nonce == u64::MAX,
        }),
{
}

impl Transaction {
    /// Makes the record of a new transaction of `payer`.
    pub fn new(
        kind: TxnKind,
        payer: &PublicKey,
        payee: &PublicKey,
        amount: u64,
        account: &Account,
    ) -> (txn: Result<Transaction, Error>)
        ensures
            transaction_result(txn) == new_transaction(kind, payer@, payee@, amount, *account),
            txn matches Ok(t) ==> t.nonce == account_nonce(kind, *account) + 1 && t.fee == 0
                && t.signature@.len() == 0 && key_error(t.payer@) is None && key_error(t.payee@)
                is None,
            txn is Err <==> account_nonce(kind, *account) == u64::MAX,
    {
        let last: u64 = match kind {
            TxnKind::TokenBurn { .. } => account.speculative_nonce,
            TxnKind::SecurityExchange => account.speculative_sec_nonce,
        };
        if last == u64::MAX {
            return Err(Error::NonceExhausted);
        }
        Ok(
            Transaction {
                kind,
                payer: payer.to_vec(),
                payee: payee.to_vec(),
                amount,
                nonce: last + 1,
                fee: 0,
                signature: Vec::new(),
            },
        )
    }

    /// A copy of the record.
    pub fn copy(&self) -> (txn: Transaction)
        ensures
            txn@ == self@,
    {
        Transaction {
            kind: self.kind,
            payer: slice_to_vec(self.payer.as_slice()),
            payee: slice_to_vec(self.payee.as_slice()),
            amount: self.amount,
            nonce: self.nonce,
            fee: self.fee,
            signature: slice_to_vec(self.signature.as_slice()),
        }
    }

    /// The record whose size decides this record's fee.
    pub fn fee_shape(&self) -> (shape: Transaction)
        ensures
            shape@ == fee_shape(self@),
    {
        let mut signature: Vec<u8> = Vec::new();
        let mut i: usize = 0;
        while i < FEE_SIGNATURE_LENGTH
            invariant
                i <= FEE_SIGNATURE_LENGTH,
                signature@ == Seq::new(i as nat, |k: int| 0u8),
            decreases FEE_SIGNATURE_LENGTH - i,
        {
            signature.push(0u8);
            i = i + 1;
        }
        Transaction {
            kind: self.kind,
            payer: slice_to_vec(self.payer.as_slice()),
            payee: slice_to_vec(self.payee.as_slice()),
            amount: self.amount,
            nonce: self.nonce,
            fee: 0,
            signature,
        }
    }
}

} // verus!
