pub mod common;
pub mod error;
pub mod types;
pub mod v1;
