//! Core logic of an Inter-Blockchain Communication (IBC) protocol
//! implementation: the light-client lifecycle, the connection and channel
//! handshakes, and the packet flow, together with message validation,
//! canonical store paths, packet commitments, and coin literals.
//!
//! Every handler is a pure function of `(message, pre-state)` to
//! `(post-state, events)` against [`host::HostState`]; an error means the
//! handler changed nothing. The wire codec and outside serialization live
//! beyond this crate's boundary.

pub mod ack_packet;
pub mod chan_close_confirm;
pub mod chan_close_init;
pub mod chan_msgs;
pub mod chan_open;
pub mod channel;
pub mod client;
pub mod client_lifecycle;
pub mod client_msgs;
pub mod coin;
pub mod commitment;
pub mod conn_handshake;
pub mod conn_msgs;
pub mod connection;
pub mod context;
pub mod errors;
pub mod events;
pub mod height;
pub mod host;
pub mod identifier;
pub mod path;
pub mod raw;
pub mod recv_packet;
pub mod router;
pub mod send_packet;
pub mod signer;
pub mod store;
pub mod timeout_packet;
pub mod timestamp;
pub mod tm_consensus;

pub use height::Height;
