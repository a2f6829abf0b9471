//! From a transaction to what the mempool is told of it.

use crate::messages::{
    CommittedTransaction, CommittedTransactionRecord, ExclusionEntry, TransactionExclusion,
};
use crate::transaction::{SignedTransaction, SignedTransactionView, TransactionStatus};
use vstd::prelude::*;

verus! {

/// The exclusion entry of a transaction: its sender and sequence number.
pub open spec fn exclusion_of(txn: SignedTransactionView) -> ExclusionEntry {
    ExclusionEntry { sender: txn.sender, sequence_number: txn.sequence_number }
}

/// The record of a committed transaction: its sender and sequence number, and
/// rejected exactly when the executor discarded it.
pub open spec fn committed_record_of(
    txn: SignedTransactionView,
    status: TransactionStatus,
) -> CommittedTransactionRecord {
    CommittedTransactionRecord {
        sender: txn.sender,
        sequence_number: txn.sequence_number,
        is_rejected: status is Discard,
    }
}

/// Names a transaction for exclusion from a block.
pub fn to_exclusion(txn: &SignedTransaction) -> (entry: TransactionExclusion)
    ensures
        entry@ == exclusion_of(txn@),
{
    TransactionExclusion {
        sender: txn.sender().clone(),
        sequence_number: txn.sequence_number(),
    }
}

/// Records a transaction of a committed block with the executor's verdict.
pub fn to_committed_record(txn: &SignedTransaction, status: &TransactionStatus) -> (record:
    CommittedTransaction)
    ensures
        record@ == committed_record_of(txn@, *status),
{
    let is_rejected = match status {
        TransactionStatus::Keep(_) => false,
        TransactionStatus::Discard(_) => true,
    };
    CommittedTransaction {
        sender: txn.sender().clone(),
        sequence_number: txn.sequence_number(),
        is_rejected,
    }
}

} // verus!
