pub mod auth_handlers;
pub mod handlers;
pub mod templates;
