//! The client side of the Haystack HTTP API: operations, their bodies and
//! the answers they bring.
pub mod ops;
pub mod auth;
pub mod args;
pub mod config;
pub mod session;
pub mod request;
