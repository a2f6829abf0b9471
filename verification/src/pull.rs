//! Asking the mempool for the transactions of a new block.

use crate::messages::{
    BlockRequest, DecodeAttempt, DecodeAttemptView, DecodeError, ExclusionEntry, GetBlockRequest,
    GetBlockResponse, TransactionExclusion,
};
use crate::transaction::{SignedTransaction, SignedTransactionView};
use crate::translate::{exclusion_of, to_exclusion};
use vstd::prelude::*;

verus! {

/// The exclusion entries of one payload, in the payload's order.
pub open spec fn payload_exclusions(payload: Seq<SignedTransactionView>) -> Seq<ExclusionEntry> {
    payload.map_values(|txn: SignedTransactionView| exclusion_of(txn))
}

/// The exclusion entries of several payloads: those of the first payload,
/// then those of the second, and so on.
pub open spec fn exclusions(payloads: Seq<Seq<SignedTransactionView>>) -> Seq<ExclusionEntry> {
    payloads.flat_map(|payload: Seq<SignedTransactionView>| payload_exclusions(payload))
}

proof fn lemma_exclusions_empty()
    ensures
        exclusions(Seq::empty()) == Seq::<ExclusionEntry>::empty(),
{
}

proof fn lemma_exclusions_push(
    payloads: Seq<Seq<SignedTransactionView>>,
    payload: Seq<SignedTransactionView>,
)
    ensures
        exclusions(payloads.push(payload)) == exclusions(payloads) + payload_exclusions(payload),
{
    let f = |payload: Seq<SignedTransactionView>| payload_exclusions(payload);
    assert(payloads.push(payload).map_values(f) =~= payloads.map_values(f).push(f(payload)));
    payloads.map_values(f).lemma_flatten_push(f(payload));
}

/// Builds the request for a block of at most `max_size` transactions that
/// holds none of the transactions of `exclude_payloads`.
///
/// The request names every transaction of every payload, duplicates
/// included, in the order in which they were given.
pub fn gen_get_block_request(
    max_size: u64,
    exclude_payloads: Vec<&Vec<SignedTransaction>>,
) -> (request: GetBlockRequest)
    ensures
        request@ == (BlockRequest {
            max_block_size: max_size,
            transactions: exclusions(exclude_payloads.deep_view()),
        }),
{
    let ghost payloads = exclude_payloads.deep_view();
    let mut exclude_txns: Vec<TransactionExclusion> = Vec::new();
    proof {
        lemma_exclusions_empty();
    }
    for i in 0..exclude_payloads.len()
        invariant
            payloads == exclude_payloads.deep_view(),
            exclude_txns.deep_view() == exclusions(payloads.take(i as int)),
    {
        let payload = exclude_payloads[i];
        let ghost done = exclude_txns.deep_view();
        let ghost txns = payload.deep_view();
        for j in 0..payload.len()
            invariant
                txns == payload.deep_view(),
                exclude_txns.deep_view() == done + payload_exclusions(txns.take(j as int)),
        {
            let ghost before = exclude_txns.deep_view();
            let entry = to_exclusion(&payload[j]);
            exclude_txns.push(entry);
            assert(exclude_txns.deep_view() =~= before.push(exclusion_of(txns[j as int])));
        }
        proof {
            assert(payloads.take(i + 1) =~= payloads.take(i as int).push(txns));
            lemma_exclusions_push(payloads.take(i as int), txns);
        }
    }
    assert(payloads.take(exclude_payloads.len() as int) =~= payloads);
    GetBlockRequest { max_block_size: max_size, transactions: exclude_txns }
}

/// What a [`SecurityEvent`] holds, as mathematical values.
pub ghost enum SecurityEventView {
    InvalidTransactionConsensus { error: Seq<char>, data: Seq<u8> },
}

/// An event for the security audit log.
#[derive(Clone, Debug, PartialEq, Eq)]
pub enum SecurityEvent {
    /// The mempool offered consensus a transaction that does not decode.
    /// The event carries the decoding error and the bytes as they came.
    InvalidTransactionConsensus { error: DecodeError, data: Vec<u8> },
}

impl View for SecurityEvent {
    type V = SecurityEventView;

    open spec fn view(&self) -> SecurityEventView {
        match self {
            SecurityEvent::InvalidTransactionConsensus { error, data } => {
                SecurityEventView::InvalidTransactionConsensus { error: error@, data: data@ }
            },
        }
    }
}

impl DeepView for SecurityEvent {
    type V = SecurityEventView;

    open spec fn deep_view(&self) -> SecurityEventView {
        self@
    }
}

/// What a [`PulledBlock`] holds, as mathematical values.
pub ghost struct PulledBlockView {
    pub payload: Seq<SignedTransactionView>,
    pub audit: Seq<SecurityEventView>,
}

/// What came of a block response: the transactions that decoded, and an
/// audit event for each one that did not.
#[derive(Clone, Debug, PartialEq, Eq)]
pub struct PulledBlock {
    pub payload: Vec<SignedTransaction>,
    pub audit: Vec<SecurityEvent>,
}

impl View for PulledBlock {
    type V = PulledBlockView;

    open spec fn view(&self) -> PulledBlockView {
        PulledBlockView { payload: self.payload.deep_view(), audit: self.audit.deep_view() }
    }
}

/// Whether `attempts` is what `try_from_wire` may have given for the
/// transactions `wire`: one attempt for each, in their order, with the
/// bytes as they came and with what a call on them gave.
pub open spec fn decodes<F: Fn(&Vec<u8>) -> Result<SignedTransaction, DecodeError>>(
    try_from_wire: F,
    wire: Seq<Vec<u8>>,
    attempts: Seq<DecodeAttempt>,
) -> bool {
    &&& attempts.len() == wire.len()
    &&& forall|i: int|
        0 <= i < wire.len() ==> (#[trigger] attempts[i]).bytes == wire[i] && call_ensures(
            try_from_wire,
            (&wire[i],),
            attempts[i].decoded,
        )
}

/// The attempts as mathematical values.
pub open spec fn attempt_views(attempts: Seq<DecodeAttempt>) -> Seq<DecodeAttemptView> {
    Seq::new(attempts.len(), |i: int| attempts[i]@)
}

/// The transaction that the bytes decoded to, if they did.
pub open spec fn decoded_of(attempt: DecodeAttemptView) -> Option<SignedTransactionView> {
    match attempt.decoded {
        Ok(txn) => Some(txn),
        Err(_) => None,
    }
}

/// The audit event for the bytes, if they did not decode.
pub open spec fn audit_of(attempt: DecodeAttemptView) -> Option<SecurityEventView> {
    match attempt.decoded {
        Ok(_) => None,
        Err(error) => Some(
            SecurityEventView::InvalidTransactionConsensus { error, data: attempt.bytes },
        ),
    }
}

/// The transactions that decoded, in the order in which they were offered.
pub open spec fn decoded_payload(attempts: Seq<DecodeAttemptView>) -> Seq<SignedTransactionView> {
    attempts.filter_map(|attempt: DecodeAttemptView| decoded_of(attempt))
}

/// The audit events of the transactions that did not decode, in the order
/// in which they were offered.
pub open spec fn audit_trail(attempts: Seq<DecodeAttemptView>) -> Seq<SecurityEventView> {
    attempts.filter_map(|attempt: DecodeAttemptView| audit_of(attempt))
}

/// What comes of a block whose transactions decoded as `attempts` says.
pub open spec fn pulled_block(attempts: Seq<DecodeAttemptView>) -> PulledBlockView {
    PulledBlockView { payload: decoded_payload(attempts), audit: audit_trail(attempts) }
}

/// How many of the transactions did not decode.
pub open spec fn undecodable(attempts: Seq<DecodeAttemptView>) -> nat {
    attempts.filter(|attempt: DecodeAttemptView| attempt.decoded is Err).len()
}

/// The payload keeps the order of the offer: what comes of two offers, one
/// after the other, is what comes of the first and then what comes of the
/// second. An offer of one transaction gives that transaction where it
/// decodes, and nothing where it does not.
pub proof fn lemma_order_preserved(first: Seq<DecodeAttemptView>, second: Seq<DecodeAttemptView>)
    ensures
        decoded_payload(first + second) == decoded_payload(first) + decoded_payload(second),
        second.len() == 1 ==> decoded_payload(second) == match second[0].decoded {
            Ok(txn) => seq![txn],
            Err(_) => Seq::empty(),
        },
    decreases second.len(),
{
    if second.len() > 0 {
        let rest = second.drop_last();
        lemma_order_preserved(first, rest);
        assert((first + second).drop_last() =~= first + rest);
    }
}

/// A transaction that does not decode costs the payload that transaction
/// and nothing else: of `n` offered transactions of which `k` do not
/// decode, `n - k` are in the payload, and `k` audit events are raised.
pub proof fn lemma_decode_failure_isolation(attempts: Seq<DecodeAttemptView>)
    ensures
        decoded_payload(attempts).len() == attempts.len() - undecodable(attempts),
        audit_trail(attempts).len() == undecodable(attempts),
    decreases attempts.len(),
{
    if attempts.len() == 0 {
        reveal(Seq::filter);
    } else {
        let rest = attempts.drop_last();
        lemma_decode_failure_isolation(rest);
        assert(attempts =~= rest.push(attempts.last()));
        rest.lemma_filter_len_push(
            |attempt: DecodeAttemptView| attempt.decoded is Err,
            attempts.last(),
        );
    }
}

/// Attempts to decode each transaction that a block response offers, in the
/// mempool's order, with one call of `try_from_wire` for each.
///
/// A response without a block offers nothing.
pub fn decode_block<F: Fn(&Vec<u8>) -> Result<SignedTransaction, DecodeError>>(
    response: GetBlockResponse,
    try_from_wire: F,
) -> (attempts: Vec<DecodeAttempt>)
    requires
        forall|bytes: &Vec<u8>| call_requires(try_from_wire, (bytes,)),
    ensures
        decodes(try_from_wire, response.offered(), attempts@),
{
    let transactions = match response.block {
        Some(block) => block.transactions,
        None => Vec::new(),
    };
    let ghost wire = transactions@;
    let mut attempts: Vec<DecodeAttempt> = Vec::new();
    for bytes in it: transactions
        invariant
            it.seq() == wire,
            forall|bytes: &Vec<u8>| call_requires(try_from_wire, (bytes,)),
            decodes(try_from_wire, wire.take(it.index() as int), attempts@),
    {
        let decoded = try_from_wire(&bytes);
        attempts.push(DecodeAttempt { bytes, decoded });
    }
    assert(wire.take(wire.len() as int) =~= wire);
    attempts
}

/// Sorts the attempts into the payload and the audit trail.
///
/// The payload holds the transactions that decoded, in the order of the
/// attempts. A transaction that did not decode is left out of it, and an
/// audit event holds its error and its bytes.
pub fn collect_payload(attempts: Vec<DecodeAttempt>) -> (pulled: PulledBlock)
    ensures
        pulled@ == pulled_block(attempts.deep_view()),
{
    let ghost all = attempts.deep_view();
    let ghost items = attempts@;
    let mut payload: Vec<SignedTransaction> = Vec::new();
    let mut audit: Vec<SecurityEvent> = Vec::new();
    for attempt in it: attempts
        invariant
            it.seq() == items,
            all.len() == items.len(),
            forall|k: int| 0 <= k < items.len() ==> all[k] == #[trigger] items[k]@,
            payload.deep_view() == decoded_payload(all.take(it.index() as int)),
            audit.deep_view() == audit_trail(all.take(it.index() as int)),
    {
        let ghost at = it.index() as int;
        proof {
            assert(all[at] == attempt@);
            all.lemma_filter_map_take_succ(|attempt: DecodeAttemptView| decoded_of(attempt), at);
            all.lemma_filter_map_take_succ(|attempt: DecodeAttemptView| audit_of(attempt), at);
        }
        match attempt.decoded {
            Ok(txn) => {
                payload.push(txn);
            },
            Err(error) => {
                let event = SecurityEvent::InvalidTransactionConsensus {
                    error,
                    data: attempt.bytes,
                };
                audit.push(event);
            },
        }
    }
    assert(all.take(all.len() as int) =~= all);
    PulledBlock { payload, audit }
}

/// Reads the mempool's answer to a block request.
///
/// Each offered transaction is decoded with `try_from_wire`. The payload
/// holds those that decoded, in the mempool's order. One that did not
/// decode is left out of it, and an audit event holds its error and its
/// bytes: so each offered transaction is in the payload or in the audit
/// trail. The block is not cut to any size: that is the mempool's part.
pub fn read_block_response<F: Fn(&Vec<u8>) -> Result<SignedTransaction, DecodeError>>(
    response: GetBlockResponse,
    try_from_wire: F,
) -> (pulled: PulledBlock)
    requires
        forall|bytes: &Vec<u8>| call_requires(try_from_wire, (bytes,)),
    ensures
        exists|attempts: Seq<DecodeAttempt>|
            #[trigger] decodes(try_from_wire, response.offered(), attempts) && pulled@
                == pulled_block(attempt_views(attempts)),
        pulled.payload.len() + pulled.audit.len() == response.offered().len(),
{
    let attempts = decode_block(response, try_from_wire);
    proof {
        assert(attempts.deep_view() =~= attempt_views(attempts@));
        lemma_decode_failure_isolation(attempts.deep_view());
    }
    collect_payload(attempts)
}

} // verus!
