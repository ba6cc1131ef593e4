pub mod control;
pub mod error;
pub mod message_handler;
pub mod model;
pub mod proxy;
