//! Process-level edge runtime: configuration layering, lifecycle state
//! machine, health aggregation and load metrics, with their contracts.

pub mod config;
pub mod exposition;
pub mod health;
pub mod laws;
pub mod loader;
pub mod manager;
pub mod metrics;
pub mod monitor;
pub mod paths;
pub mod text;

pub use config::{validate_config, ConfigError, ConfigOverride, RuntimeConfig, RuntimeError};
pub use health::{ComponentHealth, RuntimeHealth, RuntimeStatus};
pub use loader::{DefaultConfigLoader, EnvOverrides, FileLayer};
pub use manager::RuntimeManagerCore;
