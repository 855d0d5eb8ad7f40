//! Bridges repository push notifications to an HPC batch scheduler: decides
//! which workflows a push triggers, lowers each job into a batch script, and
//! classifies the scheduler's answer to each submission.  All I/O — the
//! message bus, repository cloning, file discovery and the HTTP call — lives
//! outside this crate and hands in plain values.

pub mod actions;
pub mod config;
pub mod dispatch;
pub mod errors;
pub mod pipeline;
pub mod script;
pub mod text;
pub mod trigger;
pub mod types;

pub use config::{default_rabbitmq_host, default_rabbitmq_port};
pub use trigger::should_trigger_workflow;
