//! Watches container/VM filesystem state for changes, classifies each change
//! into the action a remote virtual-machine manager must take, and relays the
//! classified event across a process boundary using a length-prefixed binary
//! wire protocol.
//!
//! The crate holds the verified core: the event taxonomy and its classifier,
//! the system-path filter, the FIFO bridge between the notification callback
//! and the relay loop, and the wire codec. Socket I/O, the OS watcher hookup
//! and JSON payload (de)serialization live outside the library and hand it
//! plain values.

pub mod bridge;
pub mod classify;
pub mod codec;
pub mod event;
pub mod filter;
pub mod paths;
pub mod remote;
pub mod topics;
