//! The deployment of the three blockchain layers, and which layer a timing
//! request reads from or writes to.

use vstd::prelude::*;
use crate::text::str_eq;

verus! {

/// Where the contracts of the three layers were deployed, and by whom.
#[derive(Debug, Clone)]
pub struct DeploymentConfig {
    pub deployer: String,
    pub private_key: String,
    pub layers: Layers,
}

/// The three layers: stream (L1), logic (L2) and anchor (L3).
#[derive(Debug, Clone)]
pub struct Layers {
    pub stream: LayerConfig,
    pub logic: LayerConfig,
    pub anchor: LayerConfig,
}

/// One layer's RPC endpoint, block time in seconds, and contract addresses.
#[derive(Debug, Clone)]
pub struct LayerConfig {
    pub rpc_url: String,
    pub block_time: u64,
    pub addresses: Addresses,
}

/// The addresses of a layer's contracts.
#[derive(Debug, Clone)]
pub struct Addresses {
    pub knowledge_registry: String,
}

/// Why a timing request was refused.
#[derive(Debug, Clone, Copy, PartialEq, Eq)]
pub enum TimerError {
    /// The layer is none of "stream", "logic" and "anchor".
    InvalidLayer,
}

impl TimerError {
    /// The error's message.
    pub fn message(&self) -> (s: String)
        ensures
            s@ == "Invalid layer"@,
    {
        String::from_str("Invalid layer")
    }
}

/// Times reads and writes on the layers of a deployment.
pub struct BlockchainTimer {
    config: DeploymentConfig,
}

/// The configuration of the layer with the given name, if there is one.
pub open spec fn layer_named(config: DeploymentConfig, layer: Seq<char>) -> Option<LayerConfig> {
    if layer == "stream"@ {
        Some(config.layers.stream)
    } else if layer == "logic"@ {
        Some(config.layers.logic)
    } else if layer == "anchor"@ {
        Some(config.layers.anchor)
    } else {
        None
    }
}

impl BlockchainTimer {
    /// A timer for the given deployment.
    pub fn from_config(config: DeploymentConfig) -> (t: Self)
        ensures
            t.config() == config,
    {
        BlockchainTimer { config }
    }

    /// The deployment this timer works on.
    pub closed spec fn config(&self) -> DeploymentConfig {
        self.config
    }

    /// The configuration of the named layer, or `InvalidLayer`.
    pub fn layer_config(&self, layer: &str) -> (r: Result<&LayerConfig, TimerError>)
        ensures
            match layer_named(self.config(), layer@) {
                Some(c) => r == Ok::<&LayerConfig, TimerError>(&c),
                None => r == Err::<&LayerConfig, TimerError>(TimerError::InvalidLayer),
            },
    {
        if str_eq(layer, "stream") {
            Ok(&self.config.layers.stream)
        } else if str_eq(layer, "logic") {
            Ok(&self.config.layers.logic)
        } else if str_eq(layer, "anchor") {
            Ok(&self.config.layers.anchor)
        } else {
            Err(TimerError::InvalidLayer)
        }
    }

    /// The RPC endpoint that a read on the named layer asks.
    pub fn read_endpoint(&self, layer: &str) -> (r: Result<String, TimerError>)
        ensures
            match layer_named(self.config(), layer@) {
                Some(c) => r matches Ok(url) && url@ == c.rpc_url@,
                None => r == Err::<String, TimerError>(TimerError::InvalidLayer),
            },
    {
        match self.layer_config(layer) {
            Ok(c) => Ok(c.rpc_url.clone()),
            Err(e) => Err(e),
        }
    }

    /// How long a write on the named layer waits: one block time, in milliseconds.
    pub fn write_delay_ms(&self, layer: &str) -> (r: Result<u64, TimerError>)
        requires
            layer_named(self.config(), layer@) matches Some(c) ==> c.block_time * 1000 <= u64::MAX,
        ensures
            match layer_named(self.config(), layer@) {
                Some(c) => r == Ok::<u64, TimerError>((c.block_time * 1000) as u64),
                None => r == Err::<u64, TimerError>(TimerError::InvalidLayer),
            },
    {
        match self.layer_config(layer) {
            Ok(c) => Ok(c.block_time * 1000),
            Err(e) => Err(e),
        }
    }
}

} // verus!
