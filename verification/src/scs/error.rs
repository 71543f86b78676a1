//! Failures while decoding an SCS bridge datagram.

use vstd::prelude::*;

use crate::telemetry::model::Real;

verus! {

/// Failure while decoding one SCS bridge datagram.
#[derive(Debug, Clone, PartialEq)]
#[non_exhaustive]
pub enum DecodeError {
    /// The datagram ended before a field could be read.
    UnexpectedEnd {
        /// Byte offset at which the field begins.
        offset: usize,
        /// Number of bytes required for the field.
        needed: usize,
        /// Number of bytes still available.
        remaining: usize,
    },
    /// The packet does not carry the bridge signature.
    UnsupportedMagic {
        /// Four bytes observed at the start of the packet.
        actual: [u8; 4],
    },
    /// The bridge packet uses an unsupported protocol version.
    UnsupportedVersion {
        /// Version accepted by this build.
        expected: u8,
        /// Version observed in the packet.
        actual: u8,
    },
    /// The concrete adapter was given another SCS game identifier.
    UnsupportedGame {
        /// Game identifier accepted by the adapter.
        expected: u8,
        /// Game identifier observed in the packet.
        actual: u8,
    },
    /// The bridge packet is not the exact length for its version.
    InvalidLength {
        /// Required datagram length for the decoded version.
        expected: usize,
        /// Received datagram length.
        actual: usize,
    },
    /// A header flags or reserved field was non-zero.
    UnsupportedFlags {
        /// Rejected flags byte.
        flags: u8,
        /// Rejected reserved byte.
        reserved: u8,
    },
    /// A v2 light bit outside the defined mask was set.
    UnsupportedLightBits {
        /// Rejected light bit mask.
        bits: u16,
    },
    /// A v2 state bit outside the defined mask was set.
    UnsupportedStateBits {
        /// Rejected state bit mask.
        bits: u16,
    },
    /// A floating-point measurement was not finite.
    NonFiniteValue {
        /// Stable field name.
        field: &'static str,
    },
    /// A measurement that must be non-negative was negative.
    NegativeValue {
        /// Stable field name.
        field: &'static str,
        /// Rejected value.
        value: Real,
    },
    /// An RPM field was negative or outside the canonical u16 range.
    InvalidRpm {
        /// Stable field name.
        field: &'static str,
        /// Rejected value.
        value: Real,
    },
    /// A pedal field was outside the inclusive unit interval.
    InvalidNormalizedValue {
        /// Stable field name.
        field: &'static str,
        /// Rejected value.
        value: Real,
    },
    /// A fixed-width v2 job label was not valid UTF-8.
    InvalidUtf8 {
        /// Stable field name.
        field: &'static str,
    },
    /// A fixed-width v2 job label was not NUL-terminated and zero-padded.
    InvalidTextPadding {
        /// Stable field name.
        field: &'static str,
    },
}

} // verus!
