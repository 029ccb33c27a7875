//! The configuration of the proxy.

use crate::probability::Probability;
use vstd::prelude::*;
use vstd::string::StringExecFns;

verus! {

/// The default probability that a call is handled normally: 0.65, to the
/// nearest tick.
pub const DEFAULT_RPC_SUCCESS: u32 = 10_905_190;

/// The default probability that a transaction is allowed to succeed: 0.8,
/// to the nearest tick.
pub const DEFAULT_TX_SUCCESS: u32 = 13_421_773;

/// The default port of the listener.
pub const DEFAULT_PORT: u16 = 8080;

/// The default number of workers of the listener.
pub const DEFAULT_WORKERS: usize = 10;

/// The default endpoint of the upstream node.
pub open spec fn spec_default_endpoint() -> Seq<char> {
    "http://127.0.0.1:8899"@
}

/// The default endpoint of the upstream node.
pub fn default_endpoint() -> (endpoint: &'static str)
    ensures
        endpoint@ == spec_default_endpoint(),
{
    "http://127.0.0.1:8899"
}

/// Top-level configuration of the proxy.
#[derive(Clone, Debug, PartialEq, Eq)]
pub struct Config {
    pub settings: Settings,
}

/// The endpoint of the upstream node, the success rates, and the listener's
/// port and number of workers.
#[derive(Clone, Debug, PartialEq, Eq)]
pub struct Settings {
    pub rpc_endpoint: String,
    pub percentages: PercentageSettings,
    pub port: u16,
    pub workers: usize,
}

/// The success rates of inbound calls.
#[derive(Clone, Copy, Debug, PartialEq, Eq, Structural)]
pub struct PercentageSettings {
    /// The probability that a call is handled normally rather than answered
    /// with a random event.
    pub rpc_success: Probability,
    /// The probability that a `sendTransaction` call is allowed to succeed
    /// rather than answered with a fabricated signature.
    pub tx_success: Probability,
}

impl PercentageSettings {
    /// Whether these are the default rates.
    pub open spec fn is_default(self) -> bool {
        self.rpc_success@ == DEFAULT_RPC_SUCCESS && self.tx_success@ == DEFAULT_TX_SUCCESS
    }
}

impl Default for PercentageSettings {
    fn default() -> (percentages: PercentageSettings)
        ensures
            percentages.is_default(),
    {
        PercentageSettings {
            rpc_success: Probability::from_ticks(DEFAULT_RPC_SUCCESS).unwrap(),
            tx_success: Probability::from_ticks(DEFAULT_TX_SUCCESS).unwrap(),
        }
    }
}

impl Config {
    /// Whether this is the built-in configuration.
    pub open spec fn is_default(self) -> bool {
        &&& self.settings.rpc_endpoint@ == spec_default_endpoint()
        &&& self.settings.percentages.is_default()
        &&& self.settings.port == DEFAULT_PORT
        &&& self.settings.workers == DEFAULT_WORKERS
    }
}

impl Default for Config {
    fn default() -> (config: Config)
        ensures
            config.is_default(),
    {
        Config {
            settings: Settings {
                rpc_endpoint: String::from_str(default_endpoint()),
                percentages: PercentageSettings::default(),
                port: DEFAULT_PORT,
                workers: DEFAULT_WORKERS,
            },
        }
    }
}

} // verus!
