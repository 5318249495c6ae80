//! The record of one transfer intent, and its hash.
use vstd::prelude::*;
use crate::chain::{encode_transaction, keccak256, keccak256_of, tx_encoding};

verus! {

/// One transfer intent, never changed once built.
pub struct Transaction {
    pub from: String,
    pub to: String,
    pub amount: u128,
    pub timestamp: u64,
    pub nonce: u128,
}

/// The mathematical value of a [`Transaction`].
pub struct TransactionView {
    pub from: Seq<char>,
    pub to: Seq<char>,
    pub amount: u128,
    pub timestamp: u64,
    pub nonce: u128,
}

impl View for Transaction {
    type V = TransactionView;

    open spec fn view(&self) -> TransactionView {
        TransactionView {
            from: self.from@,
            to: self.to@,
            amount: self.amount,
            timestamp: self.timestamp,
            nonce: self.nonce,
        }
    }
}

/// The replay identity of a transaction: the Keccak-256 digest of its
/// canonical encoding.
pub open spec fn tx_hash_of(t: TransactionView) -> Seq<u8> {
    keccak256_of(tx_encoding(t.from, t.to, t.amount, t.timestamp, t.nonce))
}

/// The transactions of `log` recorded under `account`, in order.
pub open spec fn history(log: Seq<TransactionView>, account: Seq<char>) -> Seq<TransactionView>
    decreases log.len(),
{
    if log.len() == 0 {
        Seq::empty()
    } else if log.last().from == account {
        history(log.drop_last(), account).push(log.last())
    } else {
        history(log.drop_last(), account)
    }
}

impl Transaction {
    /// A transaction with the same fields.
    pub fn duplicate(&self) -> (r: Transaction)
        ensures
            r@ == self@,
    {
        Transaction {
            from: self.from.clone(),
            to: self.to.clone(),
            amount: self.amount,
            timestamp: self.timestamp,
            nonce: self.nonce,
        }
    }

    pub fn new(from: String, to: String, amount: u128, timestamp: u64, nonce: u128) -> (r: Transaction)
        ensures
            r@ == (TransactionView { from: from@, to: to@, amount, timestamp, nonce }),
    {
        Transaction { from, to, amount, timestamp, nonce }
    }

    /// The canonical encoding of the fields, the input of [`Transaction::hash`].
    pub fn encode(&self) -> (r: Vec<u8>)
        ensures
            r@ == tx_encoding(self.from@, self.to@, self.amount, self.timestamp, self.nonce),
    {
        match encode_transaction(&self.from, &self.to, self.amount, self.timestamp, self.nonce) {
            Some(bytes) => bytes,
            None => Vec::new(),
        }
    }

    /// The 32-byte hash that identifies this transaction for replay protection.
    pub fn hash(&self) -> (r: Vec<u8>)
        ensures
            r@ == tx_hash_of(self@),
            r@.len() == 32,
    {
        keccak256(&self.encode())
    }
}

} // verus!
