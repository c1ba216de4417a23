//! Secret-at-rest protection for the TunnelForge desktop core: a key-rotating
//! envelope-encryption service, a named credential store built on top of it,
//! password hashing and verification, and the input-validation and
//! message-sanitization layer that guards every external text channel.
//!
//! The surrounding desktop shell (windows, tray, process supervision, network
//! transports) consumes these components but takes no part in their logic.

pub mod audit;
pub mod autostart;
pub mod auth;
pub mod cipher;
pub mod config;
pub mod errors;
pub mod keys;
pub mod logbuf;
pub mod metrics;
pub mod notifications;
pub mod password;
pub mod platform;
pub mod policy;
pub mod power;
mod rng;
pub mod sanitize;
pub mod settings;
pub mod status;
pub mod store;
mod text;
pub mod validate;
