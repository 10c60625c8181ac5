//! Runtime configuration of the monitoring engine.

use vstd::prelude::*;

verus! {

/// Environment-level configuration. The engine itself reads only the
/// `checker_*` fields: the probe fan-out bound, the per-probe timeout and
/// the inter-cycle sleep. The rest parameterises the surrounding process.
#[derive(Clone, Debug)]
pub struct AppConfig {
    pub secret: String,
    pub host: String,
    pub addr: String,
    pub database_url: String,
    pub assets: String,
    /// Maximum number of health probes in flight at once.
    pub checker_batch: usize,
    /// Timeout of one outbound probe, in seconds.
    pub checker_timeout: u64,
    /// Sleep between two health-check cycles, in seconds.
    pub checker_sleep: u64,
    pub checker_log: bool,
    pub mailer: String,
    pub mailer_password: String,
}

impl AppConfig {
    /// A configuration the engine can run with: at least one probe slot,
    /// and a positive probe timeout.
    pub open spec fn wf(&self) -> bool {
        &&& self.checker_batch >= 1
        &&& self.checker_timeout >= 1
    }

    /// Whether the engine can run with this configuration.
    pub fn is_runnable(&self) -> (r: bool)
        ensures
            r == self.wf(),
    {
        self.checker_batch >= 1 && self.checker_timeout >= 1
    }
}

} // verus!
