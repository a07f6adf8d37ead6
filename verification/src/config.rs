//! Configuration of the automation server, and how it configures the VM.

use vstd::prelude::*;

use crate::context::{BackoffStrategy, RetryConfig};
use crate::fmt::string_of;
use crate::vm::{FindStrategy, VmConfig};

verus! {

/// Addresses the server listens on.
#[derive(Debug, Clone, PartialEq, Eq)]
pub struct ServerConfig {
    pub http_addr: String,
    pub grpc_addr: String,
}

/// Settings of the execution engine.
#[derive(Debug, Clone, PartialEq, Eq)]
pub struct EngineConfig {
    pub default_timeout_ms: u64,
    pub find_strategy: String,
    pub retry_max: u32,
    pub retry_delay_ms: u64,
}

/// Limits of the script runtime.
#[derive(Debug, Clone, PartialEq, Eq)]
pub struct JsConfig {
    pub max_memory_mb: u64,
    pub max_execution_time_ms: u64,
}

/// Where plugins are loaded from.
#[derive(Debug, Clone, PartialEq, Eq)]
pub struct PluginsConfig {
    pub load_paths: Vec<String>,
    pub auto_load: bool,
}

/// Debug visualization of runs.
#[derive(Debug, Clone, PartialEq, Eq)]
pub struct DebugConfig {
    pub enabled: bool,
    pub highlight: bool,
    pub highlight_duration_ms: u64,
    pub screenshot_on_step: bool,
    pub screenshot_dir: String,
    pub slow_motion_ms: u64,
}

impl Default for DebugConfig {
    fn default() -> (r: Self)
        ensures
            !r.enabled,
            r.highlight,
            r.highlight_duration_ms == 500,
            !r.screenshot_on_step,
            r.screenshot_dir@ == "./debug_screenshots"@,
            r.slow_motion_ms == 0,
    {
        DebugConfig {
            enabled: false,
            highlight: true,
            highlight_duration_ms: 500,
            screenshot_on_step: false,
            screenshot_dir: string_of("./debug_screenshots"),
            slow_motion_ms: 0,
        }
    }
}

/// Server configuration, as read from `config.toml`.
#[derive(Debug, Clone, PartialEq, Eq)]
pub struct Config {
    pub server: ServerConfig,
    pub engine: EngineConfig,
    pub js: JsConfig,
    pub plugins: PluginsConfig,
    pub debug: DebugConfig,
}

impl Default for Config {
    fn default() -> (r: Self)
        ensures
            r.server.http_addr@ == "0.0.0.0:8080"@,
            r.server.grpc_addr@ == "0.0.0.0:50051"@,
            r.engine.default_timeout_ms == 30_000,
            r.engine.find_strategy@ == "sequential"@,
            r.engine.retry_max == 3,
            r.engine.retry_delay_ms == 1000,
            r.js.max_memory_mb == 64,
            r.js.max_execution_time_ms == 60_000,
            r.plugins.load_paths@.len() == 1,
            r.plugins.load_paths@[0]@ == "./plugins"@,
            r.plugins.auto_load,
            !r.debug.enabled,
            r.debug.highlight,
            r.debug.highlight_duration_ms == 500,
            !r.debug.screenshot_on_step,
            r.debug.screenshot_dir@ == "./debug_screenshots"@,
            r.debug.slow_motion_ms == 0,
    {
        let mut load_paths: Vec<String> = Vec::new();
        load_paths.push(string_of("./plugins"));
        Config {
            server: ServerConfig {
                http_addr: string_of("0.0.0.0:8080"),
                grpc_addr: string_of("0.0.0.0:50051"),
            },
            engine: EngineConfig {
                default_timeout_ms: 30_000,
                find_strategy: string_of("sequential"),
                retry_max: 3,
                retry_delay_ms: 1000,
            },
            js: JsConfig { max_memory_mb: 64, max_execution_time_ms: 60_000 },
            plugins: PluginsConfig { load_paths, auto_load: true },
            debug: DebugConfig::default(),
        }
    }
}

/// The VM configuration that an engine configuration gives: its timeout,
/// a fixed-delay retry with its count and delay, and the sequential find
/// order (the only one the engine's `find_strategy` setting selects).
pub open spec fn vm_config_of(cfg: EngineConfig, r: VmConfig) -> bool {
    &&& r.retry == RetryConfig {
        max_retries: cfg.retry_max,
        delay_ms: cfg.retry_delay_ms,
        backoff: BackoffStrategy::Fixed,
    }
    &&& r.default_timeout_ms == cfg.default_timeout_ms
    &&& r.find_strategy is Sequential
}

impl<'a> From<&'a EngineConfig> for VmConfig {
    /// The VM configuration that an engine configuration gives.
    fn from(cfg: &'a EngineConfig) -> (r: VmConfig)
        ensures
            vm_config_of(*cfg, r),
    {
        let retry = RetryConfig {
            max_retries: cfg.retry_max,
            delay_ms: cfg.retry_delay_ms,
            backoff: BackoffStrategy::Fixed,
        };
        VmConfig {
            retry,
            default_timeout_ms: cfg.default_timeout_ms,
            find_strategy: FindStrategy::Sequential,
        }
    }
}

impl<'a> vstd::std_specs::convert::FromSpecImpl<&'a EngineConfig> for VmConfig {
    open spec fn obeys_from_spec() -> bool {
        true
    }

    open spec fn from_spec(cfg: &'a EngineConfig) -> VmConfig {
        VmConfig {
            retry: RetryConfig {
                max_retries: cfg.retry_max,
                delay_ms: cfg.retry_delay_ms,
                backoff: BackoffStrategy::Fixed,
            },
            default_timeout_ms: cfg.default_timeout_ms,
            find_strategy: FindStrategy::Sequential,
        }
    }
}

} // verus!
