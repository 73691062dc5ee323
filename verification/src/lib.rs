//! Client core for a real-time metrics HTTP API.
//!
//! The crate holds everything a client decides: which address each kind of
//! query goes to, which header authenticates it, how the outcome of an
//! exchange is classified, and how the polling cursor moves. Talking to the
//! network is left to the caller, who sends the [`client::Request`] a query
//! gives and hands back the [`client::Exchange`] that came of it.

pub mod address;
pub mod exchange;
pub mod client;
pub mod cursor;
pub mod origin;
pub mod service;
