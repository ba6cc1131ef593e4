//! The client side of a TCP tunnel: it reads its configuration, logs in to
//! a tunnel server over one control connection, and for every external user
//! that the server announces, claims that user's connection and copies it
//! to a local service.
pub mod common;
pub mod config;
pub mod message;
pub mod outside;
pub mod tunnel;
