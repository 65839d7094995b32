//! The rendezvous channel a calling worker blocks on: one channel per
//! concurrently-in-flight call path, created once and reused. A call embeds
//! a fresh sending half in its message and then waits on the receiving half;
//! since the worker blocks until the reply arrives before it issues another
//! call, at most one reply is ever pending on it.

use crate::awaiter::Reply;
use vstd::prelude::*;

verus! {

/// A worker-side reply channel: the sending half travels inside call
/// messages to the host, the receiving half stays with the worker.
pub struct Rendezvous {
    tx: crossbeam_channel::Sender<Reply>,
    rx: crossbeam_channel::Receiver<Reply>,
}

impl Rendezvous {
    /// A fresh rendezvous channel for one call path.
    pub fn new() -> (r: Rendezvous) {
        let (tx, rx) = crossbeam_channel::unbounded::<Reply>();
        Rendezvous { tx, rx }
    }

    /// A sending half to embed in an outgoing call message.
    pub fn reply_sender(&self) -> (s: crossbeam_channel::Sender<Reply>) {
        self.tx.clone()
    }

    /// Parks the calling worker until the reply arrives. `None` means the
    /// host side dropped every sending half without replying; the caller
    /// turns that into a failure instead of waiting forever.
    pub fn wait(&self) -> (r: Option<Reply>) {
        match self.rx.recv() {
            Ok(reply) => Some(reply),
            Err(_) => None,
        }
    }
}

} // verus!
