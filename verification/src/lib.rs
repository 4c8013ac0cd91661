pub mod agent;
pub mod auth;
pub mod client;
pub mod commands;
pub mod config;
pub mod display;
pub mod template;
pub mod sort;
pub mod style;
pub mod text;
pub mod types;
pub mod ui;
