//! The consensus side of a mempool adapter, without its I/O.
//!
//! Consensus asks a remote mempool for the transactions of a new block, and
//! tells it which transactions a committed block held. This crate builds the
//! requests of both calls, reads the response of the first, says which
//! counters a commit ticks, and tracks each call from its submission to its
//! outcome. Sending a request and waiting for its answer is left to the
//! caller, and so is the wire schema: the caller hands over the function
//! that decodes a transaction.
//!
//! - [`transaction`]: transactions and the executor's verdicts on them.
//! - [`messages`]: the requests and the response.
//! - [`translate`]: from a transaction to its exclusion entry and its
//!   commit record.
//! - [`pull`]: the request for a block, and what comes of the response.
//! - [`commit`]: the plan for a committed block.
//! - [`call`]: the life of one call.
//! - [`proxy`]: the holder of the mempool client.

pub mod call;
pub mod commit;
pub mod messages;
pub mod proxy;
pub mod pull;
pub mod transaction;
pub mod translate;
