use mempool_proxy::messages::{CommittedTransaction, TransactionExclusion};
use mempool_proxy::transaction::{SignedTransaction, TransactionStatus};
use mempool_proxy::translate::{to_committed_record, to_exclusion};

#[test]
fn transaction_gives_back_its_parts() {
    let txn = SignedTransaction::new(vec![1, 2, 3], 44, vec![5, 6], vec![7, 8, 9]);
    assert_eq!(txn.sender(), &vec![1, 2, 3]);
    assert_eq!(txn.sequence_number(), 44);
    assert_eq!(txn.payload(), &vec![5, 6]);
    assert_eq!(txn.signature(), &vec![7, 8, 9]);
}

#[test]
fn exclusion_is_sender_and_sequence_number() {
    let txn = SignedTransaction::new(vec![1, 2, 3], 44, vec![5, 6], vec![7, 8, 9]);
    assert_eq!(
        to_exclusion(&txn),
        TransactionExclusion { sender: vec![1, 2, 3], sequence_number: 44 }
    );
}

#[test]
fn exclusion_of_empty_sender() {
    let txn = SignedTransaction::new(vec![], u64::MAX, vec![], vec![]);
    assert_eq!(
        to_exclusion(&txn),
        TransactionExclusion { sender: vec![], sequence_number: u64::MAX }
    );
}

#[test]
fn kept_transaction_is_not_rejected() {
    let txn = SignedTransaction::new(vec![1, 2, 3], 44, vec![5, 6], vec![7, 8, 9]);
    assert_eq!(
        to_committed_record(&txn, &TransactionStatus::Keep(4001)),
        CommittedTransaction { sender: vec![1, 2, 3], sequence_number: 44, is_rejected: false }
    );
}

#[test]
fn discarded_transaction_is_rejected() {
    let txn = SignedTransaction::new(vec![1, 2, 3], 44, vec![5, 6], vec![7, 8, 9]);
    assert_eq!(
        to_committed_record(&txn, &TransactionStatus::Discard(0)),
        CommittedTransaction { sender: vec![1, 2, 3], sequence_number: 44, is_rejected: true }
    );
}

#[test]
fn translating_leaves_the_transaction_as_it_was() {
    let txn = SignedTransaction::new(vec![1], 2, vec![3], vec![4]);
    let before = txn.clone();
    let _ = to_exclusion(&txn);
    let _ = to_committed_record(&txn, &TransactionStatus::Discard(1));
    assert_eq!(txn, before);
}
