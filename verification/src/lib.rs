//! Decoder for the header of a VLESS-style proxy protocol frame.
//!
//! Given the raw bytes received at the start of a connection, the decoder
//! validates the buffer field by field and produces either a fully populated
//! [`header::VlessHeader`] record together with the offset at which the
//! payload begins, or a typed [`header::DecodeError`]. It never reads past
//! the end of the buffer and never panics on malformed input.

pub mod header;
pub mod ipv6;
pub mod text;

pub use header::{parse_vless_header, AddressType, DecodeError, VlessHeader};
