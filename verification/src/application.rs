//! Data transfer objects and the decisions of the application services.
pub mod dto;
pub mod services;
