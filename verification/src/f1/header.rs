//! The common header at the start of every F1 UDP datagram.

use vstd::prelude::*;

use super::bytes::{le_real, le_u16, le_u32, le_u64, read_real, read_u16, read_u32, read_u64};
use super::error::DecodeError;
use crate::telemetry::model::Real;

verus! {

/// Packed byte length of the common packet header.
pub const PACKET_HEADER_LEN: usize = 29;

/// Common header at the start of every supported F1 UDP datagram.
#[derive(Debug, Clone, Copy, PartialEq, Eq, Structural)]
pub struct PacketHeader {
    /// F1 game-year packet format.
    pub packet_format: u16,
    /// Last two digits of the game year.
    pub game_year: u8,
    /// Running game's major version.
    pub game_major_version: u8,
    /// Running game's minor version.
    pub game_minor_version: u8,
    /// Version of the packet type identified by `packet_id`.
    pub packet_version: u8,
    /// Packet type identifier defined by the official specification.
    pub packet_id: u8,
    /// Game-provided opaque session identifier.
    pub session_uid: u64,
    /// Game session timestamp in seconds.
    pub session_time: Real,
    /// Frame identifier that can move backwards after a flashback.
    pub frame_identifier: u32,
    /// Frame identifier that remains monotonic across flashbacks.
    pub overall_frame_identifier: u32,
    /// Index of the player's car in packet arrays.
    pub player_car_index: u8,
    /// Split-screen player's car index, or 255 when absent.
    pub secondary_player_car_index: u8,
}

/// The header stored in the first 29 bytes of `b`.
pub open spec fn header_of(b: Seq<u8>) -> PacketHeader {
    PacketHeader {
        packet_format: le_u16(b, 0),
        game_year: b[2],
        game_major_version: b[3],
        game_minor_version: b[4],
        packet_version: b[5],
        packet_id: b[6],
        session_uid: le_u64(b, 7),
        session_time: le_real(b, 15),
        frame_identifier: le_u32(b, 19),
        overall_frame_identifier: le_u32(b, 23),
        player_car_index: b[27],
        secondary_player_car_index: b[28],
    }
}

/// The error for a header cut off after `len` bytes: the first field that
/// does not fit, where it starts, its size and what remains from its start.
pub open spec fn truncation_error(len: nat) -> DecodeError {
    let (offset, needed) = if len < 2 {
        (0usize, 2usize)
    } else if len < 7 {
        (len as usize, 1usize)
    } else if len < 15 {
        (7, 8)
    } else if len < 19 {
        (15, 4)
    } else if len < 23 {
        (19, 4)
    } else if len < 27 {
        (23, 4)
    } else {
        (len as usize, 1)
    };
    DecodeError::UnexpectedEnd { offset, needed, remaining: (len - offset) as usize }
}

/// What decoding the header of `b` gives when any packet format is accepted.
pub open spec fn decoded_any(b: Seq<u8>) -> Result<PacketHeader, DecodeError> {
    if b.len() < PACKET_HEADER_LEN {
        Err(truncation_error(b.len()))
    } else {
        Ok(header_of(b))
    }
}

/// What decoding the header of `b` gives when only `expected` is accepted.
pub open spec fn decoded_expecting(b: Seq<u8>, expected: u16) -> Result<PacketHeader, DecodeError> {
    if b.len() < 2 {
        Err(truncation_error(b.len()))
    } else if le_u16(b, 0) != expected {
        Err(DecodeError::UnsupportedPacketFormat { expected, actual: le_u16(b, 0) })
    } else {
        decoded_any(b)
    }
}

fn truncated(len: usize) -> (e: DecodeError)
    requires
        len < PACKET_HEADER_LEN,
    ensures
        e == truncation_error(len as nat),
{
    let (offset, needed): (usize, usize) = if len < 2 {
        (0, 2)
    } else if len < 7 {
        (len, 1)
    } else if len < 15 {
        (7, 8)
    } else if len < 19 {
        (15, 4)
    } else if len < 23 {
        (19, 4)
    } else if len < 27 {
        (23, 4)
    } else {
        (len, 1)
    };
    DecodeError::UnexpectedEnd { offset, needed, remaining: len - offset }
}

impl PacketHeader {
    /// Decodes the common header of any packet format and returns the
    /// untouched packet-specific bytes.
    pub fn decode_any_format(datagram: &[u8]) -> (r: Result<(PacketHeader, &[u8]), DecodeError>)
        ensures
            match r {
                Ok((h, payload)) => decoded_any(datagram@) == Ok::<PacketHeader, DecodeError>(h)
                    && payload@ == datagram@.subrange(PACKET_HEADER_LEN as int, datagram@.len() as int),
                Err(e) => decoded_any(datagram@) == Err::<PacketHeader, DecodeError>(e),
            },
    {
        if datagram.len() < PACKET_HEADER_LEN {
            return Err(truncated(datagram.len()));
        }
        let header = PacketHeader {
            packet_format: read_u16(datagram, 0),
            game_year: datagram[2],
            game_major_version: datagram[3],
            game_minor_version: datagram[4],
            packet_version: datagram[5],
            packet_id: datagram[6],
            session_uid: read_u64(datagram, 7),
            session_time: read_real(datagram, 15),
            frame_identifier: read_u32(datagram, 19),
            overall_frame_identifier: read_u32(datagram, 23),
            player_car_index: datagram[27],
            secondary_player_car_index: datagram[28],
        };
        let payload = slice_from(datagram, PACKET_HEADER_LEN);
        Ok((header, payload))
    }

    /// Decodes the common header of a datagram whose packet format must be
    /// `expected`, and returns the untouched packet-specific bytes.
    pub fn decode(datagram: &[u8], expected: u16) -> (r: Result<(PacketHeader, &[u8]), DecodeError>)
        ensures
            match r {
                Ok((h, payload)) => decoded_expecting(datagram@, expected) == Ok::<
                    PacketHeader,
                    DecodeError,
                >(h) && payload@ == datagram@.subrange(PACKET_HEADER_LEN as int, datagram@.len() as int),
                Err(e) => decoded_expecting(datagram@, expected) == Err::<PacketHeader, DecodeError>(e),
            },
    {
        if datagram.len() < 2 {
            return Err(truncated(datagram.len()));
        }
        let packet_format = read_u16(datagram, 0);
        if packet_format != expected {
            return Err(DecodeError::UnsupportedPacketFormat { expected, actual: packet_format });
        }
        PacketHeader::decode_any_format(datagram)
    }
}

/// The bytes of `b` from `start` on.
pub fn slice_from(b: &[u8], start: usize) -> (s: &[u8])
    requires
        start <= b@.len(),
    ensures
        s@ == b@.subrange(start as int, b@.len() as int),
{
    vstd::slice::slice_subrange(b, start, b.len())
}

} // verus!
