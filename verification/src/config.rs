//! Tunable values captured by a `Server` before it starts.

use vstd::prelude::*;

verus! {

/// Options a server is started with. The value is captured wholesale when
/// `serve` is called and never changes afterwards.
#[derive(Clone, Copy, Debug)]
pub struct ServerConfiguration {
    /// Number of worker execution contexts; `None` means one per available
    /// CPU core, resolved when the server starts.
    pub n_workers: Option<usize>,
    /// Milliseconds granted to in-flight connections once graceful shutdown
    /// has been triggered; `None` waits for them indefinitely.
    pub shutdown_grace_millis: Option<u64>,
    /// Whether HTTP/1 sessions are negotiated.
    pub http1_enabled: bool,
    /// Whether HTTP/2 sessions are negotiated.
    pub http2_enabled: bool,
}

impl ServerConfiguration {
    /// A configuration is well formed when an explicit worker count is at
    /// least one.
    pub open spec fn wf(&self) -> bool {
        match self.n_workers {
            Some(n) => n >= 1,
            None => true,
        }
    }

    /// The configuration `new` starts from: worker count and grace period
    /// left to their defaults, both protocols enabled.
    pub open spec fn spec_default() -> ServerConfiguration {
        ServerConfiguration {
            n_workers: None,
            shutdown_grace_millis: None,
            http1_enabled: true,
            http2_enabled: true,
        }
    }

    /// The worker count this configuration yields on a machine with
    /// `available_cores` CPU cores.
    pub open spec fn spec_resolved_workers(&self, available_cores: usize) -> usize {
        match self.n_workers {
            Some(n) => n,
            None => available_cores,
        }
    }

    /// Create a configuration with every option at its default.
    pub fn new() -> (r: Self)
        ensures
            r == Self::spec_default(),
    {
        ServerConfiguration {
            n_workers: None,
            shutdown_grace_millis: None,
            http1_enabled: true,
            http2_enabled: true,
        }
    }

    /// Fix the number of workers. At least one worker is required.
    pub fn set_workers(self, n: usize) -> (r: Self)
        requires
            n >= 1,
        ensures
            r == (ServerConfiguration { n_workers: Some(n), ..self }),
    {
        ServerConfiguration { n_workers: Some(n), ..self }
    }

    /// Bound the time in-flight connections are given to finish after a
    /// graceful shutdown has been triggered.
    pub fn set_shutdown_grace_millis(self, millis: u64) -> (r: Self)
        ensures
            r == (ServerConfiguration { shutdown_grace_millis: Some(millis), ..self }),
    {
        ServerConfiguration { shutdown_grace_millis: Some(millis), ..self }
    }

    /// Enable or disable HTTP/1 sessions.
    pub fn set_http1(self, enabled: bool) -> (r: Self)
        ensures
            r == (ServerConfiguration { http1_enabled: enabled, ..self }),
    {
        ServerConfiguration { http1_enabled: enabled, ..self }
    }

    /// Enable or disable HTTP/2 sessions.
    pub fn set_http2(self, enabled: bool) -> (r: Self)
        ensures
            r == (ServerConfiguration { http2_enabled: enabled, ..self }),
    {
        ServerConfiguration { http2_enabled: enabled, ..self }
    }

    /// The worker count to start with on a machine with `available_cores`
    /// CPU cores: the explicit setting if there is one, one worker per core
    /// otherwise.
    pub fn resolved_worker_count(&self, available_cores: usize) -> (n: usize)
        requires
            self.wf(),
            available_cores >= 1,
        ensures
            n == self.spec_resolved_workers(available_cores),
            n >= 1,
    {
        match self.n_workers {
            Some(n) => n,
            None => available_cores,
        }
    }
}

impl Default for ServerConfiguration {
    fn default() -> (r: Self)
        ensures
            r == Self::spec_default(),
    {
        Self::new()
    }
}

} // verus!
