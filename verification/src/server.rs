//! The server builder: accumulates a configuration and sources of incoming
//! connections, then starts the acceptor/worker pool.

use vstd::prelude::*;
use crate::config::ServerConfiguration;
use crate::handle::{fresh_stats, ServerHandle, ServerPhase};
use crate::incoming::IncomingStream;

verus! {

/// An HTTP server under construction. It accumulates a configuration and an
/// ordered list of bound listening sockets; the terminal operation `serve`
/// consumes it and starts the acceptor/worker pool.
///
/// Every builder method consumes the value and returns the updated one.
pub struct Server {
    config: ServerConfiguration,
    incoming: Vec<IncomingStream>,
}

impl Server {
    /// The configuration this server would start with.
    pub closed spec fn spec_config(&self) -> ServerConfiguration {
        self.config
    }

    /// The sources of incoming connections registered so far, in the order
    /// they were registered.
    pub closed spec fn spec_incoming(&self) -> Seq<IncomingStream> {
        self.incoming@
    }

    /// Create a new server with the default configuration and no sources of
    /// incoming connections.
    pub fn new() -> (r: Self)
        ensures
            r.spec_config() == ServerConfiguration::spec_default(),
            r.spec_incoming() =~= Seq::<IncomingStream>::empty(),
    {
        Server { config: ServerConfiguration::new(), incoming: Vec::new() }
    }

    /// Replace the whole configuration with `config`. Nothing is merged: any
    /// previously set option is overwritten.
    pub fn set_config(self, config: ServerConfiguration) -> (r: Self)
        ensures
            r.spec_config() == config,
            r.spec_incoming() == self.spec_incoming(),
    {
        Server { config, incoming: self.incoming }
    }

    /// The configuration currently set on this server.
    pub fn get_config(&self) -> (r: &ServerConfiguration)
        ensures
            *r == self.spec_config(),
    {
        &self.config
    }

    /// Register one more source of incoming connections. It is appended to
    /// the ordered list; an acceptor will be started for each entry.
    pub fn listen(self, incoming: IncomingStream) -> (r: Self)
        ensures
            r.spec_config() == self.spec_config(),
            r.spec_incoming() == self.spec_incoming().push(incoming),
    {
        let mut streams = self.incoming;
        streams.push(incoming);
        Server { config: self.config, incoming: streams }
    }

    /// Whether `serve` may be called: at least one source of incoming
    /// connections must have been registered through `bind` or `listen`.
    pub fn can_serve(&self) -> (r: bool)
        ensures
            r == (self.spec_incoming().len() >= 1),
    {
        self.incoming.len() >= 1
    }

    /// Start the server: one acceptor per registered source of incoming
    /// connections and a fixed pool of workers, sized by the configuration
    /// (one worker per available core by default). Consumes the builder —
    /// serving is irreversible — and returns the supervising handle at once.
    ///
    /// At least one source of incoming connections must have been
    /// registered; the unverified edge of the program checks `can_serve`
    /// first and treats a violation as a fatal programmer error.
    pub fn serve(self, available_cores: usize) -> (h: ServerHandle)
        requires
            self.spec_incoming().len() >= 1,
            self.spec_config().wf(),
            available_cores >= 1,
        ensures
            h.wf(),
            h.spec_phase() == ServerPhase::Serving,
            h.spec_config() == self.spec_config(),
            h.spec_incoming() == self.spec_incoming(),
            h.spec_counter() == 0,
            h.spec_workers().len() == self.spec_config().spec_resolved_workers(available_cores),
            forall|k: int|
                0 <= k < h.spec_workers().len() ==> #[trigger] h.spec_workers()[k]
                    == fresh_stats(),
    {
        let n_workers: usize = self.config.resolved_worker_count(available_cores);
        ServerHandle::start(self.config, self.incoming, n_workers)
    }
}

impl Default for Server {
    fn default() -> (r: Self)
        ensures
            r.spec_config() == ServerConfiguration::spec_default(),
            r.spec_incoming() =~= Seq::<IncomingStream>::empty(),
    {
        Self::new()
    }
}

} // verus!
