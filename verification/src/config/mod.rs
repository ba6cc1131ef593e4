pub mod args;
pub mod config_handler;
pub mod error;
pub mod text;
