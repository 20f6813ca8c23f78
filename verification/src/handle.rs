//! The running server: lifecycle phases, per-worker connection bookkeeping,
//! and graceful shutdown.
//!
//! A `ServerHandle` is the verified model of the acceptor/worker pool that
//! `serve` starts. The unverified edge of the program drives the real
//! sockets and protocol sessions; every decision it takes — which worker an
//! accepted connection goes to, whether a new connection may be accepted,
//! when the handle resolves — is a method here with a contract.

use vstd::prelude::*;
use crate::address::SocketAddress;
use crate::config::ServerConfiguration;
use crate::dispatch::{
    assigned_count, lemma_assigned_count_closed, lemma_assigned_count_le, lemma_round_robin_fair,
};
use crate::incoming::IncomingStream;

verus! {

/// Lifecycle phase of a running server.
#[derive(Clone, Copy, Debug, PartialEq, Eq, Structural)]
pub enum ServerPhase {
    /// Acceptors admit new connections and hand them to workers.
    Serving,
    /// Graceful shutdown has been triggered: no new connections are
    /// accepted, connections already in flight are draining.
    ShuttingDown,
    /// Terminal: every acceptor has stopped and no connection is in flight.
    Stopped,
}

/// Connection bookkeeping for one worker.
#[derive(Clone, Copy, Debug, PartialEq, Eq, Structural)]
pub struct WorkerStats {
    /// Connections this worker has received from the acceptors.
    pub received: u64,
    /// Connections currently in flight on this worker.
    pub active: u64,
    /// Connections that finished with their response fully streamed.
    pub completed: u64,
    /// Connections torn down by a handler failure or a protocol error; the
    /// worker itself keeps running.
    pub failed: u64,
    /// Connections force-closed because the shutdown grace period expired.
    pub aborted: u64,
}

/// A worker that has not received anything yet.
pub open spec fn fresh_stats() -> WorkerStats {
    WorkerStats { received: 0, active: 0, completed: 0, failed: 0, aborted: 0 }
}

/// One worker's bookkeeping after a connection is dispatched to it.
pub open spec fn stats_after_dispatch(s: WorkerStats) -> WorkerStats {
    WorkerStats { received: (s.received + 1) as u64, active: (s.active + 1) as u64, ..s }
}

/// One worker's bookkeeping after one of its in-flight connections finishes,
/// successfully or through a handler failure.
pub open spec fn stats_after_finish(s: WorkerStats, failed: bool) -> WorkerStats {
    if failed {
        WorkerStats { active: (s.active - 1) as u64, failed: (s.failed + 1) as u64, ..s }
    } else {
        WorkerStats { active: (s.active - 1) as u64, completed: (s.completed + 1) as u64, ..s }
    }
}

/// One worker's bookkeeping after its remaining in-flight connections are
/// force-closed at the end of the grace period.
pub open spec fn stats_after_abort(s: WorkerStats) -> WorkerStats {
    WorkerStats { active: 0, aborted: (s.aborted + s.active) as u64, ..s }
}

/// Supervises a running acceptor/worker pool, from `serve` until shutdown
/// has fully completed.
pub struct ServerHandle {
    phase: ServerPhase,
    config: ServerConfiguration,
    incoming: Vec<IncomingStream>,
    counter: u64,
    workers: Vec<WorkerStats>,
}

impl ServerHandle {
    /// The lifecycle phase the server is in.
    pub closed spec fn spec_phase(&self) -> ServerPhase {
        self.phase
    }

    /// The configuration the server was started with.
    pub closed spec fn spec_config(&self) -> ServerConfiguration {
        self.config
    }

    /// The sources of incoming connections, one acceptor each.
    pub closed spec fn spec_incoming(&self) -> Seq<IncomingStream> {
        self.incoming@
    }

    /// The shared round-robin counter: how many connections all acceptors
    /// together have accepted.
    pub closed spec fn spec_counter(&self) -> u64 {
        self.counter
    }

    /// The bookkeeping of each worker.
    pub closed spec fn spec_workers(&self) -> Seq<WorkerStats> {
        self.workers@
    }

    /// No connection is in flight on any worker.
    pub open spec fn all_drained(&self) -> bool {
        forall|k: int|
            0 <= k < self.spec_workers().len() ==> #[trigger] self.spec_workers()[k].active == 0
    }

    /// Well-formedness of a running server:
    /// - there is at least one worker and at least one acceptor;
    /// - every worker's `received` is exactly its round-robin share of the
    ///   shared counter;
    /// - every received connection is in exactly one state: in flight,
    ///   completed, failed, or aborted;
    /// - a stopped server has nothing in flight.
    pub open spec fn wf(&self) -> bool {
        &&& self.spec_workers().len() >= 1
        &&& self.spec_incoming().len() >= 1
        &&& self.spec_config().wf()
        &&& forall|k: int|
            0 <= k < self.spec_workers().len() ==> {
                let w = #[trigger] self.spec_workers()[k];
                &&& w.received == assigned_count(
                    self.spec_counter() as nat,
                    self.spec_workers().len() as nat,
                    k as nat,
                )
                &&& w.received == w.active + w.completed + w.failed + w.aborted
            }
        &&& self.spec_phase() == ServerPhase::Stopped ==> self.all_drained()
    }

    /// Start a pool of `n_workers` workers and one acceptor per source of
    /// incoming connections.
    pub(crate) fn start(
        config: ServerConfiguration,
        incoming: Vec<IncomingStream>,
        n_workers: usize,
    ) -> (h: Self)
        requires
            config.wf(),
            incoming@.len() >= 1,
            n_workers >= 1,
        ensures
            h.wf(),
            h.spec_phase() == ServerPhase::Serving,
            h.spec_config() == config,
            h.spec_incoming() == incoming@,
            h.spec_counter() == 0,
            h.spec_workers().len() == n_workers,
            forall|k: int| 0 <= k < n_workers ==> #[trigger] h.spec_workers()[k] == fresh_stats(),
    {
        let mut workers: Vec<WorkerStats> = Vec::new();
        let mut i: usize = 0;
        while i < n_workers
            invariant
                i <= n_workers,
                workers@.len() == i,
                forall|k: int| 0 <= k < i ==> #[trigger] workers@[k] == fresh_stats(),
            decreases n_workers - i,
        {
            workers.push(
                WorkerStats { received: 0, active: 0, completed: 0, failed: 0, aborted: 0 },
            );
            i += 1;
        }
        let h = ServerHandle { phase: ServerPhase::Serving, config, incoming, counter: 0, workers };
        proof {
            assert forall|k: int| 0 <= k < h.spec_workers().len() implies {
                let w = #[trigger] h.spec_workers()[k];
                &&& w.received == assigned_count(
                    h.spec_counter() as nat,
                    h.spec_workers().len() as nat,
                    k as nat,
                )
                &&& w.received == w.active + w.completed + w.failed + w.aborted
            } by {
                assert(assigned_count(0, h.spec_workers().len() as nat, k as nat) == 0);
            }
        }
        h
    }

    /// Whether the acceptors may admit a new connection: only while the
    /// server is serving. Once shutdown has been triggered this is false.
    pub fn accept_allowed(&self) -> (r: bool)
        ensures
            r == (self.spec_phase() == ServerPhase::Serving),
    {
        self.phase == ServerPhase::Serving
    }

    /// The round-robin choice for one accepted connection: the shared
    /// counter, taken modulo the worker count, picks the worker; the counter
    /// then moves on by one. The chosen worker's bookkeeping records one
    /// more received, in-flight connection; nothing else changes.
    pub fn dispatch(&mut self) -> (w: usize)
        requires
            old(self).wf(),
            old(self).spec_phase() == ServerPhase::Serving,
            old(self).spec_counter() < u64::MAX,
        ensures
            final(self).wf(),
            w == old(self).spec_counter() as int % old(self).spec_workers().len() as int,
            final(self).spec_counter() == old(self).spec_counter() + 1,
            final(self).spec_workers() == old(self).spec_workers().update(
                w as int,
                stats_after_dispatch(old(self).spec_workers()[w as int]),
            ),
            final(self).spec_phase() == old(self).spec_phase(),
            final(self).spec_config() == old(self).spec_config(),
            final(self).spec_incoming() == old(self).spec_incoming(),
    {
        let n: usize = self.workers.len();
        let c: u64 = self.counter;
        assert(c % (n as u64) < n as u64) by (nonlinear_arith)
            requires
                n >= 1,
        ;
        let w: usize = (c % (n as u64)) as usize;
        proof {
            lemma_assigned_count_le(c as nat, n as nat, w as nat);
        }
        self.counter = c + 1;
        let ws: &mut WorkerStats = &mut self.workers[w];
        ws.received = ws.received + 1;
        ws.active = ws.active + 1;
        proof {
            let post = *self;
            let pre = *old(self);
            assert forall|k: int| 0 <= k < post.spec_workers().len() implies {
                let st = #[trigger] post.spec_workers()[k];
                &&& st.received == assigned_count(
                    post.spec_counter() as nat,
                    post.spec_workers().len() as nat,
                    k as nat,
                )
                &&& st.received == st.active + st.completed + st.failed + st.aborted
            } by {
                assert(assigned_count((c + 1) as nat, n as nat, k as nat)
                    == assigned_count(c as nat, n as nat, k as nat) + if c as nat % n as nat
                    == k as nat {
                    1nat
                } else {
                    0nat
                });
            }
        }
        w
    }

    /// Relates the handle before and after one connection finished on worker
    /// `k`: only that worker's bookkeeping moves, by `stats_after_finish`.
    pub open spec fn finish_transition(
        pre: ServerHandle,
        post: ServerHandle,
        k: int,
        failed: bool,
    ) -> bool {
        &&& post.spec_phase() == pre.spec_phase()
        &&& post.spec_config() == pre.spec_config()
        &&& post.spec_incoming() == pre.spec_incoming()
        &&& post.spec_counter() == pre.spec_counter()
        &&& post.spec_workers() == pre.spec_workers().update(
            k,
            stats_after_finish(pre.spec_workers()[k], failed),
        )
    }

    /// One of worker `w`'s in-flight connections finished: its response was
    /// fully streamed (`failed == false`), or the handler failed or the
    /// protocol session errored (`failed == true`). Either way only that
    /// connection's record moves; the worker, its siblings, and the phase
    /// are untouched, so the worker goes on serving what it receives next.
    pub fn connection_finished(&mut self, w: usize, failed: bool)
        requires
            old(self).wf(),
            w < old(self).spec_workers().len(),
            old(self).spec_workers()[w as int].active > 0,
        ensures
            final(self).wf(),
            Self::finish_transition(*old(self), *final(self), w as int, failed),
    {
        let ws: &mut WorkerStats = &mut self.workers[w];
        ws.active = ws.active - 1;
        if failed {
            ws.failed = ws.failed + 1;
        } else {
            ws.completed = ws.completed + 1;
        }
    }

    /// Trigger graceful shutdown. A serving server moves to `ShuttingDown`:
    /// from here on `accept_allowed` is false, while every connection
    /// already in flight is left untouched so it can finish. Triggering
    /// again, or after the server stopped, changes nothing.
    pub fn shutdown(&mut self)
        requires
            old(self).wf(),
        ensures
            final(self).wf(),
            final(self).spec_phase() == if old(self).spec_phase() == ServerPhase::Serving {
                ServerPhase::ShuttingDown
            } else {
                old(self).spec_phase()
            },
            final(self).spec_phase() != ServerPhase::Serving,
            final(self).spec_workers() == old(self).spec_workers(),
            final(self).spec_counter() == old(self).spec_counter(),
            final(self).spec_config() == old(self).spec_config(),
            final(self).spec_incoming() == old(self).spec_incoming(),
    {
        if self.phase == ServerPhase::Serving {
            self.phase = ServerPhase::ShuttingDown;
        }
    }

    /// Whether every worker has drained: no connection is in flight.
    pub fn is_drained(&self) -> (r: bool)
        ensures
            r == self.all_drained(),
    {
        let mut k: usize = 0;
        let n: usize = self.workers.len();
        while k < n
            invariant
                k <= n,
                n == self.spec_workers().len(),
                forall|j: int| 0 <= j < k ==> #[trigger] self.spec_workers()[j].active == 0,
            decreases n - k,
        {
            if self.workers[k].active != 0 {
                return false;
            }
            k += 1;
        }
        true
    }

    /// Resolve the handle if shutdown is complete: a shutting-down server
    /// whose workers have all drained moves to `Stopped`. Returns whether
    /// the handle is now resolved.
    pub fn try_resolve(&mut self) -> (resolved: bool)
        requires
            old(self).wf(),
        ensures
            final(self).wf(),
            final(self).spec_phase() == if old(self).spec_phase() == ServerPhase::ShuttingDown
                && old(self).all_drained() {
                ServerPhase::Stopped
            } else {
                old(self).spec_phase()
            },
            resolved == (final(self).spec_phase() == ServerPhase::Stopped),
            final(self).spec_workers() == old(self).spec_workers(),
            final(self).spec_counter() == old(self).spec_counter(),
            final(self).spec_config() == old(self).spec_config(),
            final(self).spec_incoming() == old(self).spec_incoming(),
    {
        if self.phase == ServerPhase::ShuttingDown {
            if self.is_drained() {
                self.phase = ServerPhase::Stopped;
                return true;
            }
            return false;
        }
        self.phase == ServerPhase::Stopped
    }

    /// The shutdown grace period expired: force-close every connection still
    /// in flight — each is recorded as aborted — and stop the server.
    pub fn force_shutdown(&mut self)
        requires
            old(self).wf(),
            old(self).spec_phase() == ServerPhase::ShuttingDown,
        ensures
            final(self).wf(),
            final(self).spec_phase() == ServerPhase::Stopped,
            final(self).spec_workers().len() == old(self).spec_workers().len(),
            forall|k: int|
                0 <= k < old(self).spec_workers().len() ==> #[trigger] final(self).spec_workers()[k]
                    == stats_after_abort(old(self).spec_workers()[k]),
            final(self).spec_counter() == old(self).spec_counter(),
            final(self).spec_config() == old(self).spec_config(),
            final(self).spec_incoming() == old(self).spec_incoming(),
    {
        let n: usize = self.workers.len();
        let mut k: usize = 0;
        while k < n
            invariant
                k <= n,
                n == self.spec_workers().len(),
                self.spec_workers().len() == old(self).spec_workers().len(),
                self.spec_phase() == old(self).spec_phase(),
                self.spec_counter() == old(self).spec_counter(),
                self.spec_config() == old(self).spec_config(),
                self.spec_incoming() == old(self).spec_incoming(),
                old(self).wf(),
                forall|j: int|
                    0 <= j < k ==> #[trigger] self.spec_workers()[j] == stats_after_abort(
                        old(self).spec_workers()[j],
                    ),
                forall|j: int|
                    k <= j < n ==> #[trigger] self.spec_workers()[j] == old(self).spec_workers()[j],
            decreases n - k,
        {
            let ws: &mut WorkerStats = &mut self.workers[k];
            ws.aborted = ws.aborted + ws.active;
            ws.active = 0;
            k += 1;
        }
        self.phase = ServerPhase::Stopped;
    }

    /// Whether the server has fully shut down: the terminal phase.
    pub fn is_resolved(&self) -> (r: bool)
        ensures
            r == (self.spec_phase() == ServerPhase::Stopped),
    {
        self.phase == ServerPhase::Stopped
    }

    /// The lifecycle phase the server is in.
    pub fn phase(&self) -> (p: ServerPhase)
        ensures
            p == self.spec_phase(),
    {
        self.phase
    }

    /// How many workers the pool runs.
    pub fn worker_count(&self) -> (n: usize)
        ensures
            n == self.spec_workers().len(),
    {
        self.workers.len()
    }

    /// How many connections all acceptors together have accepted.
    pub fn connections_accepted(&self) -> (c: u64)
        ensures
            c == self.spec_counter(),
    {
        self.counter
    }

    /// The bookkeeping of worker `w`.
    pub fn worker_stats(&self, w: usize) -> (s: WorkerStats)
        requires
            w < self.spec_workers().len(),
        ensures
            s == self.spec_workers()[w as int],
    {
        self.workers[w]
    }

    /// The configuration the server was started with.
    pub fn get_config(&self) -> (r: &ServerConfiguration)
        ensures
            *r == self.spec_config(),
    {
        &self.config
    }

    /// The resolved local addresses the acceptors listen on.
    pub fn local_addrs(&self) -> (addrs: Vec<SocketAddress>)
        ensures
            addrs@.len() == self.spec_incoming().len(),
            forall|k: int|
                0 <= k < addrs@.len() ==> #[trigger] addrs@[k] == self.spec_incoming()[k].spec_addr()
                    && addrs@[k].port != 0,
    {
        let mut addrs: Vec<SocketAddress> = Vec::new();
        let mut k: usize = 0;
        let n: usize = self.incoming.len();
        while k < n
            invariant
                k <= n,
                n == self.spec_incoming().len(),
                addrs@.len() == k,
                forall|j: int|
                    0 <= j < k ==> #[trigger] addrs@[j] == self.spec_incoming()[j].spec_addr()
                        && addrs@[j].port != 0,
            decreases n - k,
        {
            addrs.push(self.incoming[k].local_addr());
            k += 1;
        }
        addrs
    }
}

/// Round-robin fairness: whenever the number of accepted connections is a
/// multiple of the worker count, every worker has received exactly its even
/// share — the counter divided by the worker count.
pub proof fn lemma_round_robin_fairness(h: ServerHandle, k: int)
    requires
        h.wf(),
        0 <= k < h.spec_workers().len(),
        h.spec_counter() as int % h.spec_workers().len() as int == 0,
    ensures
        h.spec_workers()[k].received == h.spec_counter() as int / h.spec_workers().len() as int,
{
    let c = h.spec_counter() as nat;
    let wc = h.spec_workers().len() as nat;
    lemma_round_robin_fair(c, wc, k as nat);
}

/// Even distribution at every moment: however many connections have been
/// accepted so far, no worker has received more than one connection beyond
/// any other.
pub proof fn lemma_distribution_even(h: ServerHandle, k1: int, k2: int)
    requires
        h.wf(),
        0 <= k1 < h.spec_workers().len(),
        0 <= k2 < h.spec_workers().len(),
    ensures
        h.spec_workers()[k1].received <= h.spec_workers()[k2].received + 1,
{
    let c = h.spec_counter() as nat;
    let wc = h.spec_workers().len() as nat;
    lemma_assigned_count_closed(c, wc, k1 as nat);
    lemma_assigned_count_closed(c, wc, k2 as nat);
}

/// Graceful shutdown drains before resolving: while any connection is still
/// in flight on any worker, the handle has not resolved, so a connection
/// that was mid-request when shutdown was triggered finishes (or is aborted
/// by the grace timeout) before the handle resolves.
pub proof fn lemma_in_flight_blocks_resolution(h: ServerHandle, k: int)
    requires
        h.wf(),
        0 <= k < h.spec_workers().len(),
        h.spec_workers()[k].active > 0,
    ensures
        h.spec_phase() != ServerPhase::Stopped,
{
}

/// Failure isolation: after a handler failure ends one connection on worker
/// `k`, the server accepts new connections exactly when it did before, every
/// sibling worker is untouched, and worker `k` keeps its round-robin share —
/// only the one failed connection is recorded as failed.
pub proof fn lemma_failure_isolated(pre: ServerHandle, post: ServerHandle, k: int)
    requires
        pre.wf(),
        0 <= k < pre.spec_workers().len(),
        pre.spec_workers()[k].active > 0,
        ServerHandle::finish_transition(pre, post, k, true),
    ensures
        post.wf(),
        (post.spec_phase() == ServerPhase::Serving) == (pre.spec_phase() == ServerPhase::Serving),
        forall|j: int|
            0 <= j < pre.spec_workers().len() && j != k ==> #[trigger] post.spec_workers()[j]
                == pre.spec_workers()[j],
        post.spec_workers()[k].received == pre.spec_workers()[k].received,
        post.spec_workers()[k].failed == pre.spec_workers()[k].failed + 1,
        post.spec_workers()[k].active == pre.spec_workers()[k].active - 1,
{
}

} // verus!
