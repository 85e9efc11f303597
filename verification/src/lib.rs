//! Typed bindings for the networks resource of a blockchain-indexing service.
//!
//! Each operation on a network is described by a [`Request`]: the HTTP method, the
//! endpoint, the query parameters and the JSON body that go on the wire. Building a
//! request performs no I/O; a transport sends it and hands the JSON payload of the
//! answer back to [`Network::from_json`] or [`Network::list_from_json`].

pub mod json;
pub mod laws;
pub mod network;
pub mod request;
pub mod text;
pub mod time;
pub mod vocab;

pub use network::{Network, NetworkData};
pub use request::{Endpoint, Method, Request};
pub use vocab::{Blockchain, Env};
