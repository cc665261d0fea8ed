//! A gated mail relay: API key and sender allowlist checks in front of an
//! upstream SMTP server, with the decisions of the health prober and of the
//! request metrics.
pub mod models;
pub mod error;
pub mod auth;
pub mod allowlist;
pub mod mailbox;
pub mod message;
pub mod relay;
pub mod metrics;
pub mod probe;
pub mod config;
pub mod laws;
