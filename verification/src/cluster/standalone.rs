//! The standalone (in-process) cluster plugin: its configuration, builder,
//! and the checks made before it starts.
use vstd::prelude::*;

use crate::cluster::error::ClusterError;
use crate::text::owned;

verus! {

/// The provider name the standalone cache provider registers under.
pub const PROVIDER_NAME: &'static str = "standalone";

/// The default TTL sweep interval: one second.
pub const DEFAULT_SWEEP_INTERVAL_MS: u64 = 1000;

/// Configuration of the standalone cluster plugin.
#[derive(Debug, Clone, Copy, PartialEq, Eq)]
pub struct StandaloneClusterConfig {
    /// How often the TTL sweeper scans for expired entries, in milliseconds.
    pub sweep_interval: u64,
}

impl Default for StandaloneClusterConfig {
    fn default() -> (c: Self)
        ensures
            c.sweep_interval == DEFAULT_SWEEP_INTERVAL_MS,
    {
        StandaloneClusterConfig { sweep_interval: DEFAULT_SWEEP_INTERVAL_MS }
    }
}

/// Entry point of the standalone cluster plugin.
pub struct StandaloneClusterPlugin;

/// A builder for the standalone cluster plugin.
pub struct StandaloneClusterBuilder {
    config: StandaloneClusterConfig,
}

impl StandaloneClusterPlugin {
    /// A builder with the default configuration.
    pub fn builder() -> (b: StandaloneClusterBuilder)
        ensures
            b.settings().sweep_interval == DEFAULT_SWEEP_INTERVAL_MS,
    {
        StandaloneClusterBuilder { config: StandaloneClusterConfig::default() }
    }
}

/// The message rejecting a zero sweep interval.
pub const ZERO_SWEEP_INTERVAL: &'static str = "standalone cluster plugin sweep_interval must be non-zero";

impl StandaloneClusterBuilder {
    /// The configuration the builder holds.
    pub closed spec fn settings(&self) -> StandaloneClusterConfig {
        self.config
    }

    /// Replaces the whole configuration.
    pub fn config(self, config: StandaloneClusterConfig) -> (b: Self)
        ensures
            b.settings() == config,
    {
        StandaloneClusterBuilder { config }
    }

    /// Sets the TTL sweep interval (milliseconds).
    pub fn sweep_interval(self, interval: u64) -> (b: Self)
        ensures
            b.settings() == (StandaloneClusterConfig { sweep_interval: interval }),
    {
        StandaloneClusterBuilder { config: StandaloneClusterConfig { sweep_interval: interval } }
    }

    /// The configuration to start with, once checked: a zero sweep interval
    /// is rejected as an invalid configuration.
    pub fn checked_config(&self) -> (r: Result<StandaloneClusterConfig, ClusterError>)
        ensures
            r is Ok <==> self.settings().sweep_interval != 0,
            r matches Ok(c) ==> c == self.settings(),
            r matches Err(e) ==> e matches ClusterError::InvalidConfig { reason } && reason@ == ZERO_SWEEP_INTERVAL@,
    {
        if self.config.sweep_interval == 0 {
            Err(ClusterError::InvalidConfig { reason: owned(ZERO_SWEEP_INTERVAL) })
        } else {
            Ok(self.config)
        }
    }
}

/// The standalone plugin's cache provider.
pub struct StandaloneCacheProvider;

impl StandaloneCacheProvider {
    /// The provider name it registers under.
    pub fn provider(&self) -> (p: &'static str)
        ensures
            p@ == PROVIDER_NAME@,
    {
        PROVIDER_NAME
    }

    /// The builder for a cache from the provider's options: the configured
    /// sweep interval when given, otherwise the default.
    pub fn builder_for(&self, sweep_interval_ms: Option<u64>) -> (b: StandaloneClusterBuilder)
        ensures
            b.settings().sweep_interval == match sweep_interval_ms {
                Some(ms) => ms,
                None => DEFAULT_SWEEP_INTERVAL_MS,
            },
    {
        let builder = StandaloneClusterPlugin::builder();
        match sweep_interval_ms {
            Some(ms) => builder.sweep_interval(ms),
            None => builder,
        }
    }
}

} // verus!
