//! Core of a network ingestion pipeline: a length-prefixed wire protocol is
//! reassembled into frames, frame payloads are decoded into commands, and
//! decoded commands are distributed over a load-balanced pool of forwarding
//! channels.
//!
//! The crate holds the protocol codec, the frame reassembly, the work
//! distributor, and the listener bookkeeping (identifier pools). Socket and
//! task plumbing live outside; they hand byte buffers in and take decoded
//! commands and routing decisions out.

pub mod fields;
pub mod forwarder;
pub mod frame;
pub mod interface;
pub mod linker;
pub mod listener;
pub mod pack;
pub mod parser;
pub mod proto;
pub mod proto_decode;
pub mod wire;
pub mod work_share;
