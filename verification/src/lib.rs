//! The per-direction pipe of a streaming proxy for the MariaDB and PostgreSQL
//! wire protocols: frame reassembly from a raw byte stream, and the decisions
//! that one direction of a session takes on each event.
//!
//! - `packet`: a complete wire frame with its protocol tag.
//! - `packet_handler`: the direction of a pipe.
//! - `framing`: where a frame ends, and its extraction from a buffer.
//! - `delivery`: extraction over a stream that arrives in chunks.
//! - `pipe`: the buffers of one direction and what it does next.

pub mod delivery;
pub mod framing;
pub mod packet;
pub mod packet_handler;
pub mod pipe;
