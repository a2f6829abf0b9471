//! The messages that go to the mempool and come back from it.
//!
//! Each message is plain data with public fields, as the transport wants it.
//! Its view is the value that the contracts of this crate speak of.

use crate::transaction::{SignedTransaction, SignedTransactionView};
use vstd::prelude::*;

verus! {

/// A transaction that the mempool is asked to leave out of a block, named by
/// its sender and sequence number.
pub ghost struct ExclusionEntry {
    pub sender: Seq<u8>,
    pub sequence_number: u64,
}

/// A transaction of a committed block, named by its sender and sequence
/// number, and whether the executor rejected it.
pub ghost struct CommittedTransactionRecord {
    pub sender: Seq<u8>,
    pub sequence_number: u64,
    pub is_rejected: bool,
}

/// The request for a block: how many transactions it may hold at most, and
/// the transactions to leave out.
pub ghost struct BlockRequest {
    pub max_block_size: u64,
    pub transactions: Seq<ExclusionEntry>,
}

/// The report of a committed block: one record for each of its transactions,
/// in the block's order, and the block's timestamp in microseconds.
pub ghost struct CommitRequest {
    pub transactions: Seq<CommittedTransactionRecord>,
    pub block_timestamp_usecs: u64,
}

/// The executable form of an [`ExclusionEntry`].
#[derive(Clone, Debug, PartialEq, Eq)]
pub struct TransactionExclusion {
    pub sender: Vec<u8>,
    pub sequence_number: u64,
}

impl View for TransactionExclusion {
    type V = ExclusionEntry;

    open spec fn view(&self) -> ExclusionEntry {
        ExclusionEntry { sender: self.sender@, sequence_number: self.sequence_number }
    }
}

impl DeepView for TransactionExclusion {
    type V = ExclusionEntry;

    open spec fn deep_view(&self) -> ExclusionEntry {
        self@
    }
}

/// The executable form of a [`CommittedTransactionRecord`].
#[derive(Clone, Debug, PartialEq, Eq)]
pub struct CommittedTransaction {
    pub sender: Vec<u8>,
    pub sequence_number: u64,
    pub is_rejected: bool,
}

impl View for CommittedTransaction {
    type V = CommittedTransactionRecord;

    open spec fn view(&self) -> CommittedTransactionRecord {
        CommittedTransactionRecord {
            sender: self.sender@,
            sequence_number: self.sequence_number,
            is_rejected: self.is_rejected,
        }
    }
}

impl DeepView for CommittedTransaction {
    type V = CommittedTransactionRecord;

    open spec fn deep_view(&self) -> CommittedTransactionRecord {
        self@
    }
}

/// The executable form of a [`BlockRequest`].
#[derive(Clone, Debug, PartialEq, Eq)]
pub struct GetBlockRequest {
    pub max_block_size: u64,
    pub transactions: Vec<TransactionExclusion>,
}

impl View for GetBlockRequest {
    type V = BlockRequest;

    open spec fn view(&self) -> BlockRequest {
        BlockRequest {
            max_block_size: self.max_block_size,
            transactions: self.transactions.deep_view(),
        }
    }
}

/// The executable form of a [`CommitRequest`].
#[derive(Clone, Debug, PartialEq, Eq)]
pub struct CommitTransactionsRequest {
    pub transactions: Vec<CommittedTransaction>,
    pub block_timestamp_usecs: u64,
}

impl View for CommitTransactionsRequest {
    type V = CommitRequest;

    open spec fn view(&self) -> CommitRequest {
        CommitRequest {
            transactions: self.transactions.deep_view(),
            block_timestamp_usecs: self.block_timestamp_usecs,
        }
    }
}

/// Why the bytes of a transaction could not be decoded.
#[derive(Clone, Debug, PartialEq, Eq)]
pub struct DecodeError {
    pub message: String,
}

impl View for DecodeError {
    type V = Seq<char>;

    open spec fn view(&self) -> Seq<char> {
        self.message@
    }
}

/// What a [`DecodeAttempt`] holds, as mathematical values.
pub ghost struct DecodeAttemptView {
    pub bytes: Seq<u8>,
    pub decoded: Result<SignedTransactionView, Seq<char>>,
}

/// A transaction of a block response after the attempt to decode it: the
/// bytes that came off the wire, and what decoding them gave.
#[derive(Debug, PartialEq, Eq)]
pub struct DecodeAttempt {
    pub bytes: Vec<u8>,
    pub decoded: Result<SignedTransaction, DecodeError>,
}

impl View for DecodeAttempt {
    type V = DecodeAttemptView;

    open spec fn view(&self) -> DecodeAttemptView {
        DecodeAttemptView {
            bytes: self.bytes@,
            decoded: match self.decoded {
                Ok(txn) => Ok(txn@),
                Err(error) => Err(error@),
            },
        }
    }
}

impl DeepView for DecodeAttempt {
    type V = DecodeAttemptView;

    open spec fn deep_view(&self) -> DecodeAttemptView {
        self@
    }
}

/// The transactions that the mempool offers for a block, in its order, each
/// in its bytes.
#[derive(Clone, Debug, PartialEq, Eq)]
pub struct Block {
    pub transactions: Vec<Vec<u8>>,
}

impl View for Block {
    type V = Seq<Seq<u8>>;

    open spec fn view(&self) -> Seq<Seq<u8>> {
        self.transactions.deep_view()
    }
}

/// The mempool's answer to a [`GetBlockRequest`]. It may hold no block.
#[derive(Clone, Debug, PartialEq, Eq)]
pub struct GetBlockResponse {
    pub block: Option<Block>,
}

impl View for GetBlockResponse {
    type V = Option<Seq<Seq<u8>>>;

    open spec fn view(&self) -> Option<Seq<Seq<u8>>> {
        match self.block {
            Some(block) => Some(block@),
            None => None,
        }
    }
}

impl GetBlockResponse {
    /// The transactions that the response offers: those of its block, or
    /// none where it holds no block.
    pub open spec fn offered(&self) -> Seq<Vec<u8>> {
        match self.block {
            Some(block) => block.transactions@,
            None => Seq::empty(),
        }
    }
}

} // verus!
