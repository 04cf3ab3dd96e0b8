//! A name service gateway: names resolve to addresses, and new bindings are
//! registered, over a fast local cache store and an authoritative remote ledger.
//!
//! - [`codec`]: texts of at most 24 bytes to and from the ledger's 32-byte words.
//! - [`handler`]: the router, which decides the steps that serve a request.
//! - [`service`]: the ledger side of a job, before and after the remote call.
//! - [`gateway`]: the queue in front of the single owner of the ledger client.
//! - [`db`] and [`error`]: how failures read and under which status they are reported.
//! - [`model`]: both tiers as mathematics, and what holds of requests run over them.
//! - [`felt`] and [`text`]: what is taken on trust from the ledger's field type and
//!   from the standard library.

pub mod assembly;
pub mod codec;
pub mod db;
pub mod error;
pub mod felt;
pub mod gateway;
pub mod handler;
pub mod model;
pub mod service;
pub mod text;
