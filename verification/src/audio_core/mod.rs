//! Core types: settings, errors, metrics, callback timing and stream lifecycle.
pub mod error;
pub mod config;
pub mod callback;
pub mod metrics;
pub mod stream;
