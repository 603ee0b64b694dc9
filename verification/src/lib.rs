//! A bridge between a single-threaded host and a chain.
//!
//! The host asks for four things: the address of a key, the balance of an
//! address, and to write and to read the color that a contract stores.
//! This library holds the rules of the bridge: what a key, an address and
//! an endpoint must be, in which order they are looked at, how an
//! operation moves from one piece of network work to the next, when the
//! host is called back and with which text, and how the one executor of
//! the process admits operations and keeps them apart. The network work
//! itself, and the call into the host, are done by whoever drives an
//! operation.

pub mod address;
pub mod balance;
pub mod color;
pub mod connection;
pub mod error;
pub mod executor;
pub mod identity;
pub mod operation;
pub mod text;
