//! The adapter's one piece of state: its share of the mempool client.

use std::sync::Arc;
use vstd::prelude::*;

verus! {

/// Proxy interface to mempool.
///
/// It holds a share of the client through which the mempool is reached.
/// `C` is the client's type. This crate never calls it: whoever performs
/// the calls takes the client from here.
pub struct MempoolProxy<C> {
    mempool: Arc<C>,
}

impl<C> MempoolProxy<C> {
    /// The client that the proxy holds.
    pub closed spec fn client(&self) -> Arc<C> {
        self.mempool
    }

    /// A proxy that reaches the mempool through `mempool`.
    pub fn new(mempool: Arc<C>) -> (proxy: Self)
        ensures
            proxy.client() == mempool,
    {
        Self { mempool }
    }

    /// The client through which the mempool is reached.
    pub fn mempool(&self) -> (mempool: &Arc<C>)
        ensures
            *mempool == self.client(),
    {
        &self.mempool
    }
}

} // verus!
