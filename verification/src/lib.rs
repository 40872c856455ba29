//! Polls backend instances for JSON statistics, renders the numeric fields as
//! gauges in the text exposition format, and serves the latest rendering of
//! each instance while it is fresh.

pub mod config;
pub mod text;
pub mod stats;
pub mod render;
pub mod cache;
pub mod registry;
pub mod server;
pub mod updater;

pub use crate::config::{Config, InstanceConfig};
pub use crate::registry::Instance;
