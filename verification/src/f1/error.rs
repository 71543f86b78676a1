//! Failures while decoding an F1 UDP datagram.

use vstd::prelude::*;

use vstd::string::StringExecFns;

use crate::adapter::AdapterError;
use crate::telemetry::model::Real;
use crate::text::{decimal, render_decimal};

verus! {

/// Failure while decoding an F1 UDP datagram.
#[derive(Debug, Clone, PartialEq)]
#[non_exhaustive]
pub enum DecodeError {
    /// The datagram ended before a field could be read.
    UnexpectedEnd {
        /// Byte offset at which the field begins.
        offset: usize,
        /// Number of bytes required for the field.
        needed: usize,
        /// Number of bytes still available.
        remaining: usize,
    },
    /// The packet identifies a different F1 game-year format.
    UnsupportedPacketFormat {
        /// Packet format accepted by this adapter.
        expected: u16,
        /// Packet format read from the datagram.
        actual: u16,
    },
    /// The packet identifies a game-year format outside the accepted list.
    UnsupportedPacketFormats {
        /// Packet formats accepted by this adapter.
        expected: Vec<u16>,
        /// Packet format read from the datagram.
        actual: u16,
    },
    /// The packet type has a version this adapter does not implement.
    UnsupportedPacketVersion {
        /// Packet type identifier.
        packet_id: u8,
        /// Version accepted by this adapter.
        expected: u8,
        /// Version read from the datagram.
        actual: u8,
    },
    /// A packet-specific decoder received the wrong packet id.
    UnexpectedPacketId {
        /// Packet id accepted by the decoder.
        expected: u8,
        /// Packet id read from the header.
        actual: u8,
    },
    /// The fixed-size packet does not match the official packed layout.
    InvalidPacketLength {
        /// Packet type identifier.
        packet_id: u8,
        /// Official packed packet length.
        expected: usize,
        /// Received datagram length.
        actual: usize,
    },
    /// The player car index lies outside the official car array.
    InvalidPlayerIndex {
        /// Index read from the common header.
        index: u8,
        /// Number of entries in the car array.
        car_count: usize,
    },
    /// A ratio field is non-finite or outside the inclusive unit interval.
    InvalidNormalizedValue {
        /// Official field name without the `m_` prefix.
        field: &'static str,
        /// Rejected value.
        value: Real,
    },
    /// A numeric field is non-finite or outside its documented range.
    InvalidNumericValue {
        /// Official field name without the `m_` prefix.
        field: &'static str,
        /// Rejected value.
        value: Real,
    },
    /// An integer is not a documented member of an enum-like field.
    InvalidEnumValue {
        /// Official field name without the `m_` prefix.
        field: &'static str,
        /// Rejected numeric value.
        actual: u8,
    },
}


/// The formats of `list` in decimal, separated by `, `.
pub open spec fn decimal_list(list: Seq<u16>) -> Seq<char>
    decreases list.len(),
{
    if list.len() == 0 {
        Seq::empty()
    } else if list.len() == 1 {
        decimal(list[0] as nat)
    } else {
        decimal_list(list.drop_last()) + ", "@ + decimal(list.last() as nat)
    }
}

/// Renders packet formats in decimal, separated by `, `.
pub fn render_decimal_list(list: &Vec<u16>) -> (s: String)
    ensures
        s@ == decimal_list(list@),
{
    let mut s = String::new();
    let mut i: usize = 0;
    proof {
        reveal_strlit(", ");
        assert(list@.subrange(0, 0) =~= Seq::<u16>::empty());
    }
    while i < list.len()
        invariant
            i <= list@.len(),
            s@ == decimal_list(list@.subrange(0, i as int)),
        decreases list@.len() - i,
    {
        proof {
            reveal_strlit(", ");
            assert(list@.subrange(0, i + 1).drop_last() =~= list@.subrange(0, i as int));
        }
        if i > 0 {
            s.append(", ");
        }
        s.append(render_decimal(list[i] as u64).as_str());
        i = i + 1;
    }
    proof {
        assert(list@.subrange(0, list@.len() as int) =~= list@);
    }
    s
}

impl DecodeError {
    /// The failure as displayed, where `value_text` is how the rejected real
    /// value of a numeric failure is printed.
    pub open spec fn text(&self, value_text: Seq<char>) -> Seq<char> {
        match self {
            DecodeError::UnexpectedEnd { offset, needed, remaining } => "datagram ended at offset "@
                + decimal(*offset as nat) + ": needed "@ + decimal(*needed as nat) + " bytes, "@
                + decimal(*remaining as nat) + " remain"@,
            DecodeError::UnsupportedPacketFormat { expected, actual } => "unsupported F1 packet format "@
                + decimal(*actual as nat) + "; expected "@ + decimal(*expected as nat),
            DecodeError::UnsupportedPacketFormats { expected, actual } => "unsupported F1 packet format "@
                + decimal(*actual as nat) + "; expected one of "@ + decimal_list(expected@),
            DecodeError::UnsupportedPacketVersion { packet_id, expected, actual } => "unsupported version "@
                + decimal(*actual as nat) + " for packet "@ + decimal(*packet_id as nat) + "; expected "@
                + decimal(*expected as nat),
            DecodeError::UnexpectedPacketId { expected, actual } => "unexpected packet id "@ + decimal(
                *actual as nat,
            ) + "; expected "@ + decimal(*expected as nat),
            DecodeError::InvalidPacketLength { packet_id, expected, actual } => "invalid packet "@ + decimal(
                *packet_id as nat,
            ) + " length "@ + decimal(*actual as nat) + "; expected "@ + decimal(*expected as nat),
            DecodeError::InvalidPlayerIndex { index, car_count } => "player car index "@ + decimal(
                *index as nat,
            ) + " is outside the "@ + decimal(*car_count as nat) + "-entry car array"@,
            DecodeError::InvalidNormalizedValue { field, .. } => "invalid "@ + field@ + " value "@ + value_text
                + "; expected a finite value in 0.0..=1.0"@,
            DecodeError::InvalidNumericValue { field, .. } => "invalid "@ + field@ + " value "@ + value_text
                + "; expected a finite value in its documented range"@,
            DecodeError::InvalidEnumValue { field, actual } => "invalid "@ + field@ + " enum value "@ + decimal(
                *actual as nat,
            ),
        }
    }

    /// Renders the failure, printing a rejected real value as `value_text`.
    pub fn to_string(&self, value_text: &str) -> (s: String)
        ensures
            s@ == self.text(value_text@),
    {
        match self {
            DecodeError::UnexpectedEnd { offset, needed, remaining } => {
                let mut s = String::from_str("datagram ended at offset ");
                s.append(render_decimal(*offset as u64).as_str());
                s.append(": needed ");
                s.append(render_decimal(*needed as u64).as_str());
                s.append(" bytes, ");
                s.append(render_decimal(*remaining as u64).as_str());
                s.append(" remain");
                s
            },
            DecodeError::UnsupportedPacketFormat { expected, actual } => {
                let mut s = String::from_str("unsupported F1 packet format ");
                s.append(render_decimal(*actual as u64).as_str());
                s.append("; expected ");
                s.append(render_decimal(*expected as u64).as_str());
                s
            },
            DecodeError::UnsupportedPacketFormats { expected, actual } => {
                let mut s = String::from_str("unsupported F1 packet format ");
                s.append(render_decimal(*actual as u64).as_str());
                s.append("; expected one of ");
                s.append(render_decimal_list(expected).as_str());
                s
            },
            DecodeError::UnsupportedPacketVersion { packet_id, expected, actual } => {
                let mut s = String::from_str("unsupported version ");
                s.append(render_decimal(*actual as u64).as_str());
                s.append(" for packet ");
                s.append(render_decimal(*packet_id as u64).as_str());
                s.append("; expected ");
                s.append(render_decimal(*expected as u64).as_str());
                s
            },
            DecodeError::UnexpectedPacketId { expected, actual } => {
                let mut s = String::from_str("unexpected packet id ");
                s.append(render_decimal(*actual as u64).as_str());
                s.append("; expected ");
                s.append(render_decimal(*expected as u64).as_str());
                s
            },
            DecodeError::InvalidPacketLength { packet_id, expected, actual } => {
                let mut s = String::from_str("invalid packet ");
                s.append(render_decimal(*packet_id as u64).as_str());
                s.append(" length ");
                s.append(render_decimal(*actual as u64).as_str());
                s.append("; expected ");
                s.append(render_decimal(*expected as u64).as_str());
                s
            },
            DecodeError::InvalidPlayerIndex { index, car_count } => {
                let mut s = String::from_str("player car index ");
                s.append(render_decimal(*index as u64).as_str());
                s.append(" is outside the ");
                s.append(render_decimal(*car_count as u64).as_str());
                s.append("-entry car array");
                s
            },
            DecodeError::InvalidNormalizedValue { field, .. } => {
                let mut s = String::from_str("invalid ");
                s.append(field);
                s.append(" value ");
                s.append(value_text);
                s.append("; expected a finite value in 0.0..=1.0");
                s
            },
            DecodeError::InvalidNumericValue { field, .. } => {
                let mut s = String::from_str("invalid ");
                s.append(field);
                s.append(" value ");
                s.append(value_text);
                s.append("; expected a finite value in its documented range");
                s
            },
            DecodeError::InvalidEnumValue { field, actual } => {
                let mut s = String::from_str("invalid ");
                s.append(field);
                s.append(" enum value ");
                s.append(render_decimal(*actual as u64).as_str());
                s
            },
        }
    }
}

/// The adapter failure reporting a decoding failure: a format or version
/// mismatch is an unsupported protocol, anything else a malformed packet
/// described by the failure's text.
pub open spec fn adapter_error_of(error: DecodeError, value_text: Seq<char>, e: AdapterError) -> bool {
    match error {
        DecodeError::UnsupportedPacketFormat { expected, actual } => e matches AdapterError::UnsupportedProtocol { expected: x, actual: a }
            && x@ == decimal(expected as nat) && a@ == decimal(actual as nat),
        DecodeError::UnsupportedPacketFormats { expected, actual } => e matches AdapterError::UnsupportedProtocol { expected: x, actual: a }
            && x@ == decimal_list(expected@) && a@ == decimal(actual as nat),
        DecodeError::UnsupportedPacketVersion { packet_id, expected, actual } => e matches AdapterError::UnsupportedProtocol { expected: x, actual: a }
            && x@ == "packet "@ + decimal(packet_id as nat) + " version "@ + decimal(expected as nat)
            && a@ == "packet "@ + decimal(packet_id as nat) + " version "@ + decimal(actual as nat),
        _ => e matches AdapterError::MalformedPacket { reason } && reason@ == error.text(value_text),
    }
}

fn packet_version_text(packet_id: u8, version: u8) -> (s: String)
    ensures
        s@ == "packet "@ + decimal(packet_id as nat) + " version "@ + decimal(version as nat),
{
    let mut s = String::from_str("packet ");
    s.append(render_decimal(packet_id as u64).as_str());
    s.append(" version ");
    s.append(render_decimal(version as u64).as_str());
    s
}

/// Maps a decoding failure to the adapter failure reported for it, printing
/// a rejected real value as `value_text`.
pub fn adapter_error(error: &DecodeError, value_text: &str) -> (e: AdapterError)
    ensures
        adapter_error_of(*error, value_text@, e),
{
    match error {
        DecodeError::UnsupportedPacketFormat { expected, actual } => {
            let x = render_decimal(*expected as u64);
            let a = render_decimal(*actual as u64);
            AdapterError::unsupported_protocol(x.as_str(), a.as_str())
        },
        DecodeError::UnsupportedPacketFormats { expected, actual } => {
            let x = render_decimal_list(expected);
            let a = render_decimal(*actual as u64);
            AdapterError::unsupported_protocol(x.as_str(), a.as_str())
        },
        DecodeError::UnsupportedPacketVersion { packet_id, expected, actual } => {
            let x = packet_version_text(*packet_id, *expected);
            let a = packet_version_text(*packet_id, *actual);
            AdapterError::unsupported_protocol(x.as_str(), a.as_str())
        },
        _ => {
            let text = error.to_string(value_text);
            AdapterError::malformed_packet(text.as_str())
        },
    }
}
} // verus!
