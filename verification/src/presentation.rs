//! What the web pages, the JSON API and the auth middleware compute.
pub mod api;
pub mod middleware;
pub mod web;
