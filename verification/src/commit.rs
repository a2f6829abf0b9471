//! Telling the mempool what a committed block held.

use crate::messages::{
    CommitRequest, CommitTransactionsRequest, CommittedTransaction, CommittedTransactionRecord,
};
use crate::transaction::{
    SignedTransaction, SignedTransactionView, StateComputeResult, TransactionStatus,
};
use crate::translate::{committed_record_of, to_committed_record};
use vstd::prelude::*;

verus! {

/// What [`OutcomeTicks`] holds, as mathematical values.
pub ghost struct OutcomeTicksView {
    pub success: nat,
    pub failed: nat,
}

/// The ticks of the counter of committed transactions, by outcome.
#[derive(Clone, Copy, Debug, PartialEq, Eq, Structural)]
pub struct OutcomeTicks {
    /// Ticks under the outcome "success": one for each transaction kept.
    pub success: u64,
    /// Ticks under the outcome "failed": one for each transaction rejected.
    pub failed: u64,
}

impl View for OutcomeTicks {
    type V = OutcomeTicksView;

    open spec fn view(&self) -> OutcomeTicksView {
        OutcomeTicksView { success: self.success as nat, failed: self.failed as nat }
    }
}

/// What [`CommitTicks`] holds, as mathematical values.
pub ghost struct CommitTicksView {
    pub committed_blocks: nat,
    pub txns_per_block: nat,
    pub committed_txns: OutcomeTicksView,
}

/// The counter ticks of one commit.
#[derive(Clone, Copy, Debug, PartialEq, Eq, Structural)]
pub struct CommitTicks {
    /// Ticks of the counter of committed blocks.
    pub committed_blocks: u64,
    /// The value to observe in the histogram of transactions per block.
    pub txns_per_block: u64,
    /// Ticks of the counter of committed transactions.
    pub committed_txns: OutcomeTicks,
}

impl View for CommitTicks {
    type V = CommitTicksView;

    open spec fn view(&self) -> CommitTicksView {
        CommitTicksView {
            committed_blocks: self.committed_blocks as nat,
            txns_per_block: self.txns_per_block as nat,
            committed_txns: self.committed_txns@,
        }
    }
}

/// What a [`StatusMisalignment`] holds, as mathematical values.
pub ghost struct StatusMisalignmentView {
    pub transactions: nat,
    pub statuses: nat,
}

/// The verdicts do not fit the block: there are `statuses` of them for
/// `transactions` transactions, where one more than the transactions is due.
#[derive(Clone, Copy, Debug, PartialEq, Eq, Structural)]
pub struct StatusMisalignment {
    pub transactions: usize,
    pub statuses: usize,
}

impl View for StatusMisalignment {
    type V = StatusMisalignmentView;

    open spec fn view(&self) -> StatusMisalignmentView {
        StatusMisalignmentView {
            transactions: self.transactions as nat,
            statuses: self.statuses as nat,
        }
    }
}

/// What a [`CommitPlan`] holds, as mathematical values.
pub ghost struct CommitPlanView {
    pub ticks: CommitTicksView,
    pub request: Result<CommitRequest, StatusMisalignmentView>,
}

/// What to do for a committed block: the counters to tick, and the report
/// to send, or why there is none.
#[derive(Debug, PartialEq, Eq)]
pub struct CommitPlan {
    pub ticks: CommitTicks,
    pub request: Result<CommitTransactionsRequest, StatusMisalignment>,
}

impl View for CommitPlan {
    type V = CommitPlanView;

    open spec fn view(&self) -> CommitPlanView {
        CommitPlanView {
            ticks: self.ticks@,
            request: match self.request {
                Ok(request) => Ok(request@),
                Err(misalignment) => Err(misalignment@),
            },
        }
    }
}

/// Whether the verdicts fit the block: one for the prologue, then one for
/// each transaction.
pub open spec fn aligned(txns: Seq<SignedTransactionView>, statuses: Seq<TransactionStatus>) -> bool {
    statuses.len() == txns.len() + 1
}

/// The records of a block's transactions, in the block's order. The verdict
/// on transaction `i` is `statuses[i + 1]`: the verdict on the prologue is
/// passed over.
pub open spec fn commit_records(
    txns: Seq<SignedTransactionView>,
    statuses: Seq<TransactionStatus>,
) -> Seq<CommittedTransactionRecord> {
    Seq::new(txns.len(), |i: int| committed_record_of(txns[i], statuses[i + 1]))
}

/// The report of a committed block.
pub open spec fn commit_request(
    txns: Seq<SignedTransactionView>,
    statuses: Seq<TransactionStatus>,
    timestamp_usecs: u64,
) -> CommitRequest {
    CommitRequest {
        transactions: commit_records(txns, statuses),
        block_timestamp_usecs: timestamp_usecs,
    }
}

/// How many of the records are of transactions that were kept.
pub open spec fn kept(records: Seq<CommittedTransactionRecord>) -> nat {
    records.filter(|record: CommittedTransactionRecord| !record.is_rejected).len()
}

/// How many of the records are of transactions that were rejected.
pub open spec fn rejected(records: Seq<CommittedTransactionRecord>) -> nat {
    records.filter(|record: CommittedTransactionRecord| record.is_rejected).len()
}

/// The ticks for the records: one for each, under its outcome.
pub open spec fn outcome_ticks(records: Seq<CommittedTransactionRecord>) -> OutcomeTicksView {
    OutcomeTicksView { success: kept(records), failed: rejected(records) }
}

/// The plan for a committed block.
///
/// One block is counted and its size observed, whatever the verdicts.
/// Where they fit the block, the report is sent and each transaction is
/// counted under its outcome. Where they do not, nothing is sent and no
/// transaction is counted.
pub open spec fn commit_plan(
    txns: Seq<SignedTransactionView>,
    statuses: Seq<TransactionStatus>,
    timestamp_usecs: u64,
) -> CommitPlanView {
    if aligned(txns, statuses) {
        CommitPlanView {
            ticks: CommitTicksView {
                committed_blocks: 1,
                txns_per_block: txns.len(),
                committed_txns: outcome_ticks(commit_records(txns, statuses)),
            },
            request: Ok(commit_request(txns, statuses, timestamp_usecs)),
        }
    } else {
        CommitPlanView {
            ticks: CommitTicksView {
                committed_blocks: 1,
                txns_per_block: txns.len(),
                committed_txns: OutcomeTicksView { success: 0, failed: 0 },
            },
            request: Err(
                StatusMisalignmentView { transactions: txns.len(), statuses: statuses.len() },
            ),
        }
    }
}

/// Every record is counted once: as kept or as rejected.
pub proof fn lemma_each_record_counted_once(records: Seq<CommittedTransactionRecord>)
    ensures
        kept(records) + rejected(records) == records.len(),
    decreases records.len(),
{
    if records.len() > 0 {
        let rest = records.drop_last();
        lemma_each_record_counted_once(rest);
        assert(records =~= rest.push(records.last()));
        rest.lemma_filter_len_push(
            |record: CommittedTransactionRecord| !record.is_rejected,
            records.last(),
        );
        rest.lemma_filter_len_push(
            |record: CommittedTransactionRecord| record.is_rejected,
            records.last(),
        );
    } else {
        reveal(Seq::filter);
    }
}

/// The counters agree with the block: a commit counts one block, and,
/// where the verdicts fit, as many transactions as the block holds.
pub proof fn lemma_counter_parity(
    txns: Seq<SignedTransactionView>,
    statuses: Seq<TransactionStatus>,
    timestamp_usecs: u64,
)
    ensures
        commit_plan(txns, statuses, timestamp_usecs).ticks.committed_blocks == 1,
        aligned(txns, statuses) ==> ({
            let ticks = commit_plan(txns, statuses, timestamp_usecs).ticks.committed_txns;
            ticks.success + ticks.failed == txns.len()
        }),
{
    lemma_each_record_counted_once(commit_records(txns, statuses));
}

/// The verdict on the prologue never reaches the mempool: two lists of
/// verdicts that differ in nothing but their first give the same plan.
pub proof fn lemma_prologue_dropped(
    txns: Seq<SignedTransactionView>,
    statuses: Seq<TransactionStatus>,
    other: Seq<TransactionStatus>,
    timestamp_usecs: u64,
)
    requires
        statuses.len() == other.len(),
        forall|i: int| 1 <= i < statuses.len() ==> statuses[i] == other[i],
    ensures
        commit_plan(txns, statuses, timestamp_usecs) == commit_plan(txns, other, timestamp_usecs),
{
    if aligned(txns, statuses) {
        assert(commit_records(txns, statuses) =~= commit_records(txns, other));
    }
}

/// Verdicts that do not fit the block stop the commit before anything is
/// sent: the plan holds a report exactly when they fit.
pub proof fn lemma_misalignment_sends_nothing(
    txns: Seq<SignedTransactionView>,
    statuses: Seq<TransactionStatus>,
    timestamp_usecs: u64,
)
    ensures
        commit_plan(txns, statuses, timestamp_usecs).request is Ok <==> statuses.len()
            == txns.len() + 1,
{
}

/// Builds the report of a committed block from its transactions and the
/// executor's verdicts on them.
///
/// The report holds one record for each transaction, in the block's order,
/// and the block's timestamp. Beside it come the ticks for the counter of
/// committed transactions: one for each record, under its outcome.
pub fn gen_commit_transactions_request(
    txns: &[SignedTransaction],
    compute_result: &StateComputeResult,
    timestamp_usecs: u64,
) -> (out: (CommitTransactionsRequest, OutcomeTicks))
    requires
        aligned(txns.deep_view(), compute_result@),
    ensures
        out.0@ == commit_request(txns.deep_view(), compute_result@, timestamp_usecs),
        out.1@ == outcome_ticks(commit_records(txns.deep_view(), compute_result@)),
{
    let ghost records = commit_records(txns.deep_view(), compute_result@);
    let mut all_updates: Vec<CommittedTransaction> = Vec::new();
    let mut success: u64 = 0;
    let mut failed: u64 = 0;
    proof {
        lemma_each_record_counted_once(records.take(0));
    }
    for i in 0..txns.len()
        invariant
            aligned(txns.deep_view(), compute_result@),
            records == commit_records(txns.deep_view(), compute_result@),
            all_updates.deep_view() == records.take(i as int),
            success == kept(records.take(i as int)),
            failed == rejected(records.take(i as int)),
            success + failed == i,
    {
        let record = to_committed_record(&txns[i], &compute_result.compute_status[i + 1]);
        proof {
            assert(records.take(i + 1) =~= records.take(i as int).push(record@));
            records.take(i as int).lemma_filter_len_push(
                |record: CommittedTransactionRecord| !record.is_rejected,
                record@,
            );
            records.take(i as int).lemma_filter_len_push(
                |record: CommittedTransactionRecord| record.is_rejected,
                record@,
            );
        }
        if record.is_rejected {
            failed = failed + 1;
        } else {
            success = success + 1;
        }
        all_updates.push(record);
    }
    assert(records.take(txns.len() as int) =~= records);
    let request = CommitTransactionsRequest {
        transactions: all_updates,
        block_timestamp_usecs: timestamp_usecs,
    };
    (request, OutcomeTicks { success, failed })
}

/// Plans the commit of a block.
///
/// The block counts as committed and its size is observed, whatever
/// follows. Where the verdicts fit the block, the plan holds the report
/// for the mempool and a tick for each transaction under its outcome.
/// Where they do not, the caller has broken its word: the plan holds no
/// report, so nothing can be sent, and no transaction is counted.
pub fn commit_txns(
    txns: &Vec<SignedTransaction>,
    compute_result: &StateComputeResult,
    timestamp_usecs: u64,
) -> (plan: CommitPlan)
    ensures
        plan@ == commit_plan(txns.deep_view(), compute_result@, timestamp_usecs),
{
    let transactions = txns.len();
    let statuses = compute_result.compute_status.len();
    let block_ticks = CommitTicks {
        committed_blocks: 1,
        txns_per_block: transactions as u64,
        committed_txns: OutcomeTicks { success: 0, failed: 0 },
    };
    if statuses == 0 || statuses - 1 != transactions {
        return CommitPlan {
            ticks: block_ticks,
            request: Err(StatusMisalignment { transactions, statuses }),
        };
    }
    let block = txns.as_slice();
    let (request, committed_txns) = gen_commit_transactions_request(
        block,
        compute_result,
        timestamp_usecs,
    );
    CommitPlan { ticks: CommitTicks { committed_txns, ..block_ticks }, request: Ok(request) }
}

} // verus!
