//! Timed Data Transmission Protocol: a byte-oriented protocol that streams
//! timestamped measurement events from a device (the server) to a consumer (the
//! client), with control frames for liveness, orderly shutdown and status queries.
//!
//! The library does no input or output. Each side of a connection is a machine that
//! is told what the socket and the channel did and answers with what to do next
//! ([`client::data`], [`server::session`]); a status exchange is a pair of functions
//! on bytes ([`client::status`], [`server::status`]). The caller owns the sockets,
//! the threads and the clock.
//!
//! * [`consts`], [`endian`], [`field`], [`frame`]: the bytes on the wire.
//! * [`fifo`], [`channel`], [`history`]: the drop-aware channel between a producer and
//!   a consumer, and what holds of every run of it.
//! * [`client`], [`server`]: the two sides of the protocol.
//! * [`datapath`], [`properties`]: what holds of the two sides together.
//! * [`error`], [`interop`], [`version`]: plain errors, return codes, the version.

pub mod channel;
pub mod client;
pub mod consts;
pub mod datapath;
pub mod endian;
pub mod error;
pub mod field;
pub mod fifo;
pub mod frame;
pub mod history;
pub mod interop;
pub mod properties;
pub mod server;
pub mod version;
