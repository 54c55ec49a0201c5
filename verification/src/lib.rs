//! A typed client for the Njalla JSON-RPC API that leaves the network to its
//! caller: the library says which request to send and what a reply means.
//!
//! A call goes in three steps. A method of [`NjallaClient`] makes the
//! [`client::Call`], which holds the one [`client::Request`] to send; the
//! caller sends it and wraps what came back in a [`client::Reply`]; and
//! [`client::Call::finish`] turns the reply into the typed result or into an
//! [`Error`]. The command-line front end in [`command`] goes the same way,
//! one [`command::Step`] at a time.

pub mod client;
pub mod command;
pub mod domain;
pub mod error;
pub mod json;
pub mod payload;
pub mod record;
pub mod server;

pub use client::NjallaClient;
pub use domain::{Domain, MarketDomain};
pub use error::Error;
pub use record::{NewRecord, Record};
pub use server::{NewServer, Server};
