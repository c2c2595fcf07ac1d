//! The application's configuration.
pub mod config;
