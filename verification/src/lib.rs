//! A length-prefixed message protocol over a persistent connection, with a
//! heartbeat that detects dead peers and a reconnect policy that backs off.
//!
//! The protocol is split into parts that decide and parts that do I/O. This
//! crate holds the parts that decide, each with a contract that Verus
//! proves:
//!
//! - [`codec`]: the wire format, encoding and decoding of frames;
//! - [`payload`]: the payloads the protocol gives a meaning to;
//! - [`server`] and [`client`]: the two kinds of session, as state machines
//!   from what a socket reports to what is to be done next;
//! - [`reconnect`]: the client's dialling and back-off policy;
//! - [`counter`]: the count of live connections;
//! - [`retry`]: a bounded number of retries for any operation that may fail;
//! - [`buffer`]: what is assumed of the `bytes` crate.
//!
//! Beside the protocol the crate holds a few small verified pieces: three
//! sorting algorithms ([`algorithm`], over the order stated in [`order`]),
//! helpers on text ([`text`], [`person`]), plain records ([`records`]), and
//! short studies of traits, closures and ownership ([`animal`],
//! [`container`], [`same_name`], [`closure`], [`ownership`]).

pub mod buffer;
pub mod codec;
pub mod payload;
pub mod session;
pub mod server;
pub mod client;
pub mod reconnect;
pub mod counter;
pub mod retry;

pub mod order;
pub mod algorithm;
pub mod text;
pub mod person;
pub mod records;

pub mod animal;
pub mod container;
pub mod same_name;
pub mod closure;
pub mod ownership;
