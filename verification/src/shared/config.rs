pub mod app_config;
pub mod database;
