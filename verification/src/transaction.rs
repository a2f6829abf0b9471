//! Transactions and the executor's verdicts on them.

use vstd::prelude::*;

verus! {

/// What a [`SignedTransaction`] holds, as mathematical values.
pub ghost struct SignedTransactionView {
    pub sender: Seq<u8>,
    pub sequence_number: u64,
    pub payload: Seq<u8>,
    pub signature: Seq<u8>,
}

/// A transaction that a client signed and submitted.
///
/// The sender and the sequence number together identify it to the mempool.
/// The payload and the signature are carried along and never looked into.
#[derive(Clone, Debug, PartialEq, Eq)]
pub struct SignedTransaction {
    sender: Vec<u8>,
    sequence_number: u64,
    payload: Vec<u8>,
    signature: Vec<u8>,
}

impl View for SignedTransaction {
    type V = SignedTransactionView;

    closed spec fn view(&self) -> SignedTransactionView {
        SignedTransactionView {
            sender: self.sender@,
            sequence_number: self.sequence_number,
            payload: self.payload@,
            signature: self.signature@,
        }
    }
}

impl DeepView for SignedTransaction {
    type V = SignedTransactionView;

    open spec fn deep_view(&self) -> SignedTransactionView {
        self@
    }
}

impl SignedTransaction {
    /// Puts a transaction together from its four parts.
    pub fn new(sender: Vec<u8>, sequence_number: u64, payload: Vec<u8>, signature: Vec<u8>) -> (txn:
        Self)
        ensures
            txn@ == (SignedTransactionView {
                sender: sender@,
                sequence_number,
                payload: payload@,
                signature: signature@,
            }),
    {
        SignedTransaction { sender, sequence_number, payload, signature }
    }

    /// The account that sent the transaction.
    pub fn sender(&self) -> (sender: &Vec<u8>)
        ensures
            sender@ == self@.sender,
    {
        &self.sender
    }

    /// The transaction's place among those of its sender.
    pub fn sequence_number(&self) -> (sequence_number: u64)
        ensures
            sequence_number == self@.sequence_number,
    {
        self.sequence_number
    }

    /// What the transaction asks for.
    pub fn payload(&self) -> (payload: &Vec<u8>)
        ensures
            payload@ == self@.payload,
    {
        &self.payload
    }

    /// The sender's signature.
    pub fn signature(&self) -> (signature: &Vec<u8>)
        ensures
            signature@ == self@.signature,
    {
        &self.signature
    }
}

/// The executor's verdict on one transaction of a block.
///
/// Each variant carries the status code that the executor gave.
#[derive(Clone, Copy, Debug, PartialEq, Eq, Structural)]
pub enum TransactionStatus {
    /// The transaction's effects stay in the ledger.
    Keep(u64),
    /// The transaction is rejected and must not be offered again.
    Discard(u64),
}

/// The executor's verdicts on a block.
///
/// The first verdict is on the block's prologue. The others are on the
/// block's transactions, in the block's order.
#[derive(Clone, Debug, PartialEq, Eq)]
pub struct StateComputeResult {
    pub compute_status: Vec<TransactionStatus>,
}

impl View for StateComputeResult {
    type V = Seq<TransactionStatus>;

    open spec fn view(&self) -> Seq<TransactionStatus> {
        self.compute_status@
    }
}

} // verus!
