//! Shared F1 24 and F1 25 UDP decoding, including the F1 25 2026 Season Pack
//! wire format.

pub mod bytes;
pub mod error;
pub mod header;
pub mod packets;
pub mod mapping;
pub mod events;
pub mod adapter;
pub mod laws;
