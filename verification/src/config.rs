//! Configuration containers of the gateway process: settings handed to
//! the hosting durable-execution framework and named credential profiles
//! for the storage backends. Loading and deserialization happen outside
//! the core; these are plain values once loaded.
use vstd::prelude::*;

use std::collections::HashMap;

verus! {

/// Options the hosting framework takes for the registered service.
#[derive(Clone, Copy, PartialEq, Eq, Structural, Debug)]
pub struct ServiceOptionsConfig {
    /// Seconds of inactivity after which the framework may suspend an
    /// invocation.
    pub inactivity_timeout_secs: Option<u64>,
    /// Seconds after which a suspended invocation is aborted.
    pub abort_timeout_secs: Option<u64>,
}

impl Default for ServiceOptionsConfig {
    /// No overrides: the framework's own defaults apply.
    fn default() -> (r: Self)
        ensures
            r.inactivity_timeout_secs is None,
            r.abort_timeout_secs is None,
    {
        ServiceOptionsConfig { inactivity_timeout_secs: None, abort_timeout_secs: None }
    }
}

/// Settings of the hosting execution framework.
#[derive(Clone, Copy, PartialEq, Eq, Structural, Debug)]
pub struct RestateConfig {
    pub service: ServiceOptionsConfig,
}

impl Default for RestateConfig {
    fn default() -> (r: Self)
        ensures
            r.service.inactivity_timeout_secs is None,
            r.service.abort_timeout_secs is None,
    {
        RestateConfig { service: ServiceOptionsConfig::default() }
    }
}

/// Top-level configuration: framework settings and the named credential
/// profiles the storage-backend factory draws on.
#[derive(Debug)]
pub struct Config {
    pub restate: RestateConfig,
    pub profiles: HashMap<String, HashMap<String, String>>,
}

impl Default for Config {
    fn default() -> (r: Self)
        ensures
            r.restate.service.inactivity_timeout_secs is None,
            r.restate.service.abort_timeout_secs is None,
            r.profiles@.len() == 0,
    {
        Config { restate: RestateConfig::default(), profiles: HashMap::new() }
    }
}

} // verus!
