//! The F1 adapter state machine: format selection, session tracking,
//! frame-ordered DRS state and lap completion.

use vstd::prelude::*;
use vstd::string::StringExecFns;

use super::error::DecodeError;
use super::header::{decoded_any, PacketHeader, PACKET_HEADER_LEN};
use super::packets::{
    damage_decoded, decode_event, decode_player_car_damage, decode_player_car_status,
    decode_player_car_telemetry, decode_player_car_telemetry2, decode_player_lap, decode_session,
    event_decoded, f1_24_layout, f1_24_layout_spec, f1_25_2026_layout, f1_25_2026_layout_spec,
    f1_25_layout, f1_25_layout_spec, lap_decoded, official_layout, session_decoded, status_decoded,
    telemetry2_decoded, telemetry_decoded, CarDamageSample, CarStatusSample, CarTelemetry2Sample,
    CarTelemetrySample, EventSample, F1Layout, LapSample, SessionSample, CAR_DAMAGE_PACKET_ID,
    CAR_STATUS_PACKET_ID, CAR_TELEMETRY2_PACKET_ID, CAR_TELEMETRY_PACKET_ID, EVENT_PACKET_ID,
    LAP_DATA_PACKET_ID, SESSION_PACKET_ID,
};
use crate::adapter::{AdapterDescriptor, AdapterError, AdapterId, CapabilitySet};
use crate::telemetry::frames::admits;
use crate::telemetry::model::{DrsState, TelemetryField};

verus! {

/// Stable identifier exposed by the F1 24 adapter.
pub const F1_24_ADAPTER_ID: &'static str = "f1-24";
/// Stable identifier exposed by the F1 25 adapter.
pub const F1_25_ADAPTER_ID: &'static str = "f1-25";
/// Packet format emitted by F1 24.
pub const F1_24_PACKET_FORMAT: u16 = 2024;
/// Original packet format emitted by F1 25 when UDP mode is set to F1 25.
pub const F1_25_PACKET_FORMAT: u16 = 2025;
/// Packet format emitted by F1 25 when UDP mode is set to 2026 Season Pack.
pub const F1_25_2026_PACKET_FORMAT: u16 = 2026;

/// The game whose UDP protocol an adapter decodes.
#[derive(Debug, Clone, Copy, PartialEq, Eq, Structural)]
pub enum F1Game {
    /// EA Sports F1 24: packet format 2024.
    F124,
    /// EA Sports F1 25: packet formats 2025 and 2026.
    F125,
}

/// The packed layout a game selects for a packet format, if it accepts it.
pub open spec fn layout_for(game: F1Game, packet_format: u16) -> Option<F1Layout> {
    match game {
        F1Game::F124 => if packet_format == 2024 {
            Some(f1_24_layout_spec())
        } else {
            None
        },
        F1Game::F125 => if packet_format == 2025 {
            Some(f1_25_layout_spec())
        } else if packet_format == 2026 {
            Some(f1_25_2026_layout_spec())
        } else {
            None
        },
    }
}

/// The header of `datagram` and the layout of its packet format, when the
/// header is complete and the game emits that format.
pub open spec fn header_and_layout(game: F1Game, datagram: Seq<u8>) -> Option<(PacketHeader, F1Layout)> {
    match decoded_any(datagram) {
        Err(_) => None,
        Ok(h) => match layout_for(game, h.packet_format) {
            Some(layout) => Some((h, layout)),
            None => None,
        },
    }
}

/// Whether `e` is the error for a packet format, `actual`, that the game
/// does not emit: F1 24 names its one format, F1 25 lists 2025 and 2026.
pub open spec fn unsupported_format(game: F1Game, actual: u16, e: DecodeError) -> bool {
    match game {
        F1Game::F124 => e == DecodeError::UnsupportedPacketFormat { expected: 2024, actual },
        F1Game::F125 => e matches DecodeError::UnsupportedPacketFormats { expected, actual: a } && expected@
            == seq![2025u16, 2026u16] && a == actual,
    }
}

/// Whether `e` is the error that rejects the header or the format of `datagram`.
pub open spec fn header_rejected(game: F1Game, datagram: Seq<u8>, e: DecodeError) -> bool {
    match decoded_any(datagram) {
        Err(e2) => e == e2,
        Ok(h) => layout_for(game, h.packet_format) is None && unsupported_format(game, h.packet_format, e),
    }
}

/// Selects the packed layout for a packet format.
pub fn select_layout(game: F1Game, packet_format: u16) -> (l: Option<F1Layout>)
    ensures
        l == layout_for(game, packet_format),
{
    match game {
        F1Game::F124 => if packet_format == 2024 {
            Some(f1_24_layout())
        } else {
            None
        },
        F1Game::F125 => if packet_format == 2025 {
            Some(f1_25_layout())
        } else if packet_format == 2026 {
            Some(f1_25_2026_layout())
        } else {
            None
        },
    }
}

/// Decodes the common header and selects the layout of its packet format.
pub fn decode_header_and_layout(datagram: &[u8], game: F1Game) -> (r: Result<(PacketHeader, &[u8], F1Layout), DecodeError>)
    ensures
        match r {
            Ok((h, payload, layout)) => header_and_layout(game, datagram@) == Some((h, layout))
                && payload@ == datagram@.subrange(PACKET_HEADER_LEN as int, datagram@.len() as int)
                && official_layout(layout),
            Err(e) => header_and_layout(game, datagram@) is None && header_rejected(game, datagram@, e),
        },
{
    let (header, payload) = PacketHeader::decode_any_format(datagram)?;
    match select_layout(game, header.packet_format) {
        Some(layout) => {
            Ok((header, payload, layout))
        },
        None => match game {
            F1Game::F124 => Err(DecodeError::UnsupportedPacketFormat { expected: 2024, actual: header.packet_format }),
            F1Game::F125 => {
                let mut expected: Vec<u16> = Vec::new();
                expected.push(2025);
                expected.push(2026);
                assert(expected@ =~= seq![2025u16, 2026u16]);
                Err(DecodeError::UnsupportedPacketFormats { expected, actual: header.packet_format })
            },
        },
    }
}

/// Whether a value stamped with frame `candidate` may replace one stamped
/// with `current`: nothing recorded, the same frame, or less than half the
/// wrapping counter ahead.
pub fn frame_can_replace(current: Option<u32>, candidate: u32) -> (b: bool)
    ensures
        b == admits(current, Some(candidate)),
{
    match current {
        None => true,
        Some(current) => candidate == current || candidate.wrapping_sub(current) < 0x8000_0000u32,
    }
}

/// The frame of a framed value.
pub open spec fn frame_of<T>(v: Option<(u32, T)>) -> Option<u32> {
    match v {
        None => None,
        Some((f, _)) => Some(f),
    }
}

/// A framed value after offering `value` stamped with `frame`.
pub open spec fn framed_after<T>(target: Option<(u32, T)>, frame: u32, value: T) -> Option<(u32, T)> {
    if admits(frame_of(target), Some(frame)) {
        Some((frame, value))
    } else {
        target
    }
}

fn update_framed(target: &mut Option<(u32, bool)>, frame: u32, value: bool)
    ensures
        *final(target) == framed_after(*old(target), frame, value),
{
    let current = match target {
        Some((f, _)) => Some(*f),
        None => None,
    };
    if frame_can_replace(current, frame) {
        *target = Some((frame, value));
    }
}

/// The DRS state that the last DRS-open and DRS-allowed values give: open
/// wins; otherwise allowed or not; unknown before either arrived.
pub open spec fn drs_of(active: Option<(u32, bool)>, allowed: Option<(u32, bool)>) -> DrsState {
    if active matches Some((_, true)) {
        DrsState::Active
    } else {
        match allowed {
            Some((_, true)) => DrsState::Available,
            Some((_, false)) => DrsState::Unavailable,
            None => DrsState::Unknown,
        }
    }
}

/// One decoded datagram and what the adapter's state adds to it.
#[derive(Debug, Clone, Copy)]
pub enum F1Packet {
    /// A Session packet.
    Session { header: PacketHeader, sample: SessionSample },
    /// A Lap Data packet.
    Lap { header: PacketHeader, sample: LapSample },
    /// An Event packet.
    Event { header: PacketHeader, sample: EventSample },
    /// A Car Telemetry packet, with the DRS state after it.
    CarTelemetry { header: PacketHeader, sample: CarTelemetrySample, drs: DrsState },
    /// A Car Status packet, with the DRS state after it.
    CarStatus { header: PacketHeader, sample: CarStatusSample, drs: DrsState },
    /// A Car Damage packet.
    CarDamage { header: PacketHeader, sample: CarDamageSample },
    /// A 2026 Season Pack Car Telemetry 2 packet.
    CarTelemetry2 { header: PacketHeader, sample: CarTelemetry2Sample },
    /// A packet type the adapter does not map.
    Ignored { header: PacketHeader },
}

/// Shared state of the F1 24 and F1 25 adapters.
#[derive(Debug)]
pub struct F1Adapter {
    descriptor: AdapterDescriptor,
    game: F1Game,
    session_uid: Option<u64>,
    last_lap: Option<(u32, u16)>,
    drs_active: Option<(u32, bool)>,
    drs_allowed: Option<(u32, bool)>,
}

/// The fields every F1 adapter advertises; the 2026 Season Pack adds aero.
pub open spec fn f1_capabilities(game: F1Game) -> Set<TelemetryField> {
    let common = set![
        TelemetryField::VehicleSpeed,
        TelemetryField::VehicleGear,
        TelemetryField::VehicleRpm,
        TelemetryField::VehicleRpmMax,
        TelemetryField::VehicleRevLights,
        TelemetryField::VehicleThrottle,
        TelemetryField::VehicleBrake,
        TelemetryField::VehicleDrs,
        TelemetryField::VehicleFuel,
        TelemetryField::VehiclePitLimiter,
        TelemetryField::LapCurrent,
        TelemetryField::LapPosition,
        TelemetryField::LapCurrentTime,
        TelemetryField::LapLastTime,
        TelemetryField::LapInvalid,
        TelemetryField::LapRaceState,
        TelemetryField::SessionTrack,
        TelemetryField::SessionRemainingTime,
        TelemetryField::SessionTotalLaps,
        TelemetryField::SessionRaceState,
        TelemetryField::Tyres,
        TelemetryField::Conditions,
        TelemetryField::Damage
    ];
    match game {
        F1Game::F124 => common,
        F1Game::F125 => common.insert(TelemetryField::Aero),
    }
}

/// The identifier of a game's adapter.
pub open spec fn adapter_id_of(game: F1Game) -> Seq<char> {
    match game {
        F1Game::F124 => "f1-24"@,
        F1Game::F125 => "f1-25"@,
    }
}

/// How recording the current lap `current` of a Lap Data packet stamped
/// with `frame` takes an adapter from `before` to `after`, reporting
/// `completed`: a stale frame changes nothing; otherwise a lap number above
/// the last recorded one completes the lap before it.
pub open spec fn lap_step(before: F1Adapter, frame: u32, current: Option<u16>, completed: Option<u16>, after: F1Adapter) -> bool {
    &&& after.game() == before.game()
    &&& after.spec_descriptor() == before.spec_descriptor()
    &&& after.session() == before.session()
    &&& after.drs_active() == before.drs_active()
    &&& after.drs_allowed() == before.drs_allowed()
    &&& if admits(frame_of(before.last_lap()), Some(frame)) {
        &&& after.last_lap() == (match current {
            Some(c) => Some((frame, c)),
            None => None,
        })
        &&& completed == (match (before.last_lap(), current) {
            (Some((_, previous)), Some(c)) => if c > previous {
                Some((c - 1) as u16)
            } else {
                None
            },
            _ => None,
        })
    } else {
        after.last_lap() == before.last_lap() && completed is None
    }
}

impl F1Adapter {
    /// The game this adapter decodes.
    pub closed spec fn game(&self) -> F1Game {
        self.game
    }

    /// The session UID of the packets last seen.
    pub closed spec fn session(&self) -> Option<u64> {
        self.session_uid
    }

    /// The frame and number of the last lap recorded.
    pub closed spec fn last_lap(&self) -> Option<(u32, u16)> {
        self.last_lap
    }

    /// The frame and value of the last DRS-open flag.
    pub closed spec fn drs_active(&self) -> Option<(u32, bool)> {
        self.drs_active
    }

    /// The frame and value of the last DRS-allowed flag.
    pub closed spec fn drs_allowed(&self) -> Option<(u32, bool)> {
        self.drs_allowed
    }

    /// The adapter's descriptor.
    pub closed spec fn spec_descriptor(&self) -> AdapterDescriptor {
        self.descriptor
    }

    /// Builds the adapter and its stable capability descriptor.
    pub fn new(game: F1Game) -> (r: Result<F1Adapter, AdapterError>)
        ensures
            match r {
                Ok(a) => {
                    &&& a.game() == game
                    &&& a.session() is None && a.last_lap() is None
                    &&& a.drs_active() is None && a.drs_allowed() is None
                    &&& a.spec_descriptor().id.text() == adapter_id_of(game)
                    &&& a.spec_descriptor().capabilities.fields().to_set() == f1_capabilities(game)
                },
                Err(_) => false,
            },
    {
        let fields = [
            TelemetryField::VehicleSpeed,
            TelemetryField::VehicleGear,
            TelemetryField::VehicleRpm,
            TelemetryField::VehicleRpmMax,
            TelemetryField::VehicleRevLights,
            TelemetryField::VehicleThrottle,
            TelemetryField::VehicleBrake,
            TelemetryField::VehicleDrs,
            TelemetryField::VehicleFuel,
            TelemetryField::VehiclePitLimiter,
            TelemetryField::LapCurrent,
            TelemetryField::LapPosition,
            TelemetryField::LapCurrentTime,
            TelemetryField::LapLastTime,
            TelemetryField::LapInvalid,
            TelemetryField::LapRaceState,
            TelemetryField::SessionTrack,
            TelemetryField::SessionRemainingTime,
            TelemetryField::SessionTotalLaps,
            TelemetryField::SessionRaceState,
            TelemetryField::Tyres,
            TelemetryField::Conditions,
            TelemetryField::Damage,
        ];
        let mut capabilities = CapabilitySet::from_fields(fields.as_slice());
        proof {
            assert(fields@.to_set() =~= f1_capabilities(F1Game::F124)) by {
                assert forall|f: TelemetryField| f1_capabilities(F1Game::F124).contains(f) implies fields@.contains(f) by {
                    if f == TelemetryField::VehicleSpeed { assert(fields@[0] == f); }
                    if f == TelemetryField::VehicleGear { assert(fields@[1] == f); }
                    if f == TelemetryField::VehicleRpm { assert(fields@[2] == f); }
                    if f == TelemetryField::VehicleRpmMax { assert(fields@[3] == f); }
                    if f == TelemetryField::VehicleRevLights { assert(fields@[4] == f); }
                    if f == TelemetryField::VehicleThrottle { assert(fields@[5] == f); }
                    if f == TelemetryField::VehicleBrake { assert(fields@[6] == f); }
                    if f == TelemetryField::VehicleDrs { assert(fields@[7] == f); }
                    if f == TelemetryField::VehicleFuel { assert(fields@[8] == f); }
                    if f == TelemetryField::VehiclePitLimiter { assert(fields@[9] == f); }
                    if f == TelemetryField::LapCurrent { assert(fields@[10] == f); }
                    if f == TelemetryField::LapPosition { assert(fields@[11] == f); }
                    if f == TelemetryField::LapCurrentTime { assert(fields@[12] == f); }
                    if f == TelemetryField::LapLastTime { assert(fields@[13] == f); }
                    if f == TelemetryField::LapInvalid { assert(fields@[14] == f); }
                    if f == TelemetryField::LapRaceState { assert(fields@[15] == f); }
                    if f == TelemetryField::SessionTrack { assert(fields@[16] == f); }
                    if f == TelemetryField::SessionRemainingTime { assert(fields@[17] == f); }
                    if f == TelemetryField::SessionTotalLaps { assert(fields@[18] == f); }
                    if f == TelemetryField::SessionRaceState { assert(fields@[19] == f); }
                    if f == TelemetryField::Tyres { assert(fields@[20] == f); }
                    if f == TelemetryField::Conditions { assert(fields@[21] == f); }
                    if f == TelemetryField::Damage { assert(fields@[22] == f); }
                }
            }
        }
        let game_is_f1_25 = match game {
            F1Game::F124 => false,
            F1Game::F125 => true,
        };
        if game_is_f1_25 {
            capabilities.insert(TelemetryField::Aero);
        }
        let id_text = match game {
            F1Game::F124 => F1_24_ADAPTER_ID,
            F1Game::F125 => F1_25_ADAPTER_ID,
        };
        let (display_name, protocol_version) = match game {
            F1Game::F124 => ("EA Sports F1 24", "2024/v27.2x"),
            F1Game::F125 => ("EA Sports F1 25", "2025/v3 + 2026/v10"),
        };
        proof {
            reveal_strlit("f1-24");
            reveal_strlit("f1-25");
        }
        let id = match AdapterId::new(String::from_str(id_text)) {
            Ok(id) => id,
            Err(error) => {
                proof {
                    assert(crate::adapter::valid_adapter_id(vstd::utf8::encode_utf8(id_text@))) by {
                        vstd::string::is_ascii_spec_bytes(id_text);
                    }
                }
                return Err(AdapterError::from_id_error(error));
            },
        };
        let descriptor = AdapterDescriptor::new(
            id,
            String::from_str(display_name),
            String::from_str(protocol_version),
            capabilities,
        );
        Ok(F1Adapter {
            descriptor,
            game,
            session_uid: None,
            last_lap: None,
            drs_active: None,
            drs_allowed: None,
        })
    }

    /// Returns the adapter's stable identity, protocol and capabilities.
    pub fn descriptor(&self) -> (d: &AdapterDescriptor)
        ensures
            *d == self.spec_descriptor(),
    {
        &self.descriptor
    }

    /// Forgets lap and DRS state when a packet of another session arrives.
    pub fn ensure_session(&mut self, session_uid: u64)
        ensures
            final(self).game() == old(self).game(),
            final(self).spec_descriptor() == old(self).spec_descriptor(),
            final(self).session() == Some(session_uid),
            old(self).session() == Some(session_uid) ==> *final(self) == *old(self),
            old(self).session() != Some(session_uid) ==> final(self).last_lap() is None
                && final(self).drs_active() is None && final(self).drs_allowed() is None,
    {
        let same = match self.session_uid {
            Some(uid) => uid == session_uid,
            None => false,
        };
        if !same {
            self.session_uid = Some(session_uid);
            self.last_lap = None;
            self.drs_active = None;
            self.drs_allowed = None;
        }
    }

    /// The DRS state that the last DRS values give.
    pub fn drs_state(&self) -> (d: DrsState)
        ensures
            d == drs_of(self.drs_active(), self.drs_allowed()),
    {
        let active = match self.drs_active {
            Some((_, active)) => active,
            None => false,
        };
        if active {
            DrsState::Active
        } else {
            match self.drs_allowed {
                Some((_, true)) => DrsState::Available,
                Some((_, false)) => DrsState::Unavailable,
                None => DrsState::Unknown,
            }
        }
    }

    /// Records the current lap of a Lap Data packet stamped with `frame`,
    /// returning the number of a lap it completes.
    ///
    /// A stale frame changes nothing; otherwise a lap number above the last
    /// recorded one completes the lap before it.
    pub fn complete_lap(&mut self, frame: u32, current: Option<u16>) -> (completed: Option<u16>)
        ensures
            lap_step(*old(self), frame, current, completed, *final(self)),
    {
        let recorded = match self.last_lap {
            Some((f, _)) => Some(f),
            None => None,
        };
        if !frame_can_replace(recorded, frame) {
            return None;
        }
        let completed = match (self.last_lap, current) {
            (Some((_, previous)), Some(c)) => if c > previous {
                Some(c - 1)
            } else {
                None
            },
            _ => None,
        };
        self.last_lap = match current {
            Some(c) => Some((frame, c)),
            None => None,
        };
        completed
    }
}

/// What an adapter in the given DRS state makes of a datagram whose header
/// and layout are `h` and `layout`: the packet, or the error that rejects it.
pub open spec fn packet_of(
    h: PacketHeader,
    payload: Seq<u8>,
    len: nat,
    layout: F1Layout,
    active: Option<(u32, bool)>,
    allowed: Option<(u32, bool)>,
) -> Result<F1Packet, DecodeError> {
    let frame = h.overall_frame_identifier;
    if h.packet_id == SESSION_PACKET_ID {
        match session_decoded(h, payload, len, layout) {
            Ok(s) => Ok(F1Packet::Session { header: h, sample: s }),
            Err(e) => Err(e),
        }
    } else if h.packet_id == LAP_DATA_PACKET_ID {
        match lap_decoded(h, payload, len, layout) {
            Ok(s) => Ok(F1Packet::Lap { header: h, sample: s }),
            Err(e) => Err(e),
        }
    } else if h.packet_id == EVENT_PACKET_ID {
        match event_decoded(h, payload, len) {
            Ok(s) => Ok(F1Packet::Event { header: h, sample: s }),
            Err(e) => Err(e),
        }
    } else if h.packet_id == CAR_TELEMETRY_PACKET_ID {
        match telemetry_decoded(h, payload, len, layout) {
            Ok(s) => Ok(F1Packet::CarTelemetry { header: h, sample: s, drs: drs_of(framed_after(active, frame, s.drs_active), allowed) }),
            Err(e) => Err(e),
        }
    } else if h.packet_id == CAR_STATUS_PACKET_ID {
        match status_decoded(h, payload, len, layout) {
            Ok(s) => Ok(F1Packet::CarStatus { header: h, sample: s, drs: drs_of(active, framed_after(allowed, frame, s.drs_allowed)) }),
            Err(e) => Err(e),
        }
    } else if h.packet_id == CAR_DAMAGE_PACKET_ID {
        match damage_decoded(h, payload, len, layout) {
            Ok(s) => Ok(F1Packet::CarDamage { header: h, sample: s }),
            Err(e) => Err(e),
        }
    } else if h.packet_id == CAR_TELEMETRY2_PACKET_ID && layout.car_telemetry2 is Some {
        match telemetry2_decoded(h, payload, len, layout) {
            Ok(s) => Ok(F1Packet::CarTelemetry2 { header: h, sample: s }),
            Err(e) => Err(e),
        }
    } else {
        Ok(F1Packet::Ignored { header: h })
    }
}

/// The DRS-open value after a datagram: a decoded Car Telemetry packet offers its flag.
pub open spec fn active_after(r: Result<F1Packet, DecodeError>, active: Option<(u32, bool)>) -> Option<(u32, bool)> {
    match r {
        Ok(F1Packet::CarTelemetry { header, sample, .. }) => framed_after(active, header.overall_frame_identifier, sample.drs_active),
        _ => active,
    }
}

/// The DRS-allowed value after a datagram: a decoded Car Status packet offers its flag.
pub open spec fn allowed_after(r: Result<F1Packet, DecodeError>, allowed: Option<(u32, bool)>) -> Option<(u32, bool)> {
    match r {
        Ok(F1Packet::CarStatus { header, sample, .. }) => framed_after(allowed, header.overall_frame_identifier, sample.drs_allowed),
        _ => allowed,
    }
}

/// How decoding `datagram` takes an adapter from `before` to `after` with
/// result `r`: a rejected header changes nothing; otherwise the session is
/// tracked, lap and DRS state are forgotten on a new session, the packet is
/// decoded against the DRS state, and the DRS flags it carries are recorded.
pub open spec fn decoded_step(before: F1Adapter, datagram: Seq<u8>, r: Result<F1Packet, DecodeError>, after: F1Adapter) -> bool {
    &&& after.game() == before.game()
    &&& after.spec_descriptor() == before.spec_descriptor()
    &&& match header_and_layout(before.game(), datagram) {
        None => r matches Err(e) && header_rejected(before.game(), datagram, e) && after == before,
        Some((h, layout)) => {
            let reset = before.session() != Some(h.session_uid);
            let active = if reset { None } else { before.drs_active() };
            let allowed = if reset { None } else { before.drs_allowed() };
            let payload = datagram.subrange(PACKET_HEADER_LEN as int, datagram.len() as int);
            &&& r == packet_of(h, payload, datagram.len(), layout, active, allowed)
            &&& after.session() == Some(h.session_uid)
            &&& after.last_lap() == (if reset { None } else { before.last_lap() })
            &&& after.drs_active() == active_after(r, active)
            &&& after.drs_allowed() == allowed_after(r, allowed)
        },
    }
}

impl F1Adapter {
    /// Decodes one datagram: selects its layout, tracks its session, decodes
    /// the player's entry of a supported packet and updates the DRS state.
    pub fn decode_packet(&mut self, datagram: &[u8]) -> (r: Result<F1Packet, DecodeError>)
        ensures
            decoded_step(*old(self), datagram@, r, *final(self)),
    {
        let (header, payload, layout) = match decode_header_and_layout(datagram, self.game) {
            Ok(parts) => parts,
            Err(e) => return Err(e),
        };
        self.ensure_session(header.session_uid);
        let len = datagram.len();
        let frame = header.overall_frame_identifier;
        if header.packet_id == SESSION_PACKET_ID {
            let sample = decode_session(&header, payload, len, layout)?;
            Ok(F1Packet::Session { header, sample })
        } else if header.packet_id == LAP_DATA_PACKET_ID {
            let sample = decode_player_lap(&header, payload, len, layout)?;
            Ok(F1Packet::Lap { header, sample })
        } else if header.packet_id == EVENT_PACKET_ID {
            let sample = decode_event(&header, payload, len)?;
            Ok(F1Packet::Event { header, sample })
        } else if header.packet_id == CAR_TELEMETRY_PACKET_ID {
            let sample = decode_player_car_telemetry(&header, payload, len, layout)?;
            update_framed(&mut self.drs_active, frame, sample.drs_active);
            let drs = self.drs_state();
            Ok(F1Packet::CarTelemetry { header, sample, drs })
        } else if header.packet_id == CAR_STATUS_PACKET_ID {
            let sample = decode_player_car_status(&header, payload, len, layout)?;
            update_framed(&mut self.drs_allowed, frame, sample.drs_allowed);
            let drs = self.drs_state();
            Ok(F1Packet::CarStatus { header, sample, drs })
        } else if header.packet_id == CAR_DAMAGE_PACKET_ID {
            let sample = decode_player_car_damage(&header, payload, len, layout)?;
            Ok(F1Packet::CarDamage { header, sample })
        } else if header.packet_id == CAR_TELEMETRY2_PACKET_ID && layout.car_telemetry2.is_some() {
            let sample = decode_player_car_telemetry2(&header, payload, len, layout)?;
            Ok(F1Packet::CarTelemetry2 { header, sample })
        } else {
            Ok(F1Packet::Ignored { header })
        }
    }
}


/// Built-in adapter for EA Sports F1 24 (packet format 2024).
#[derive(Debug)]
pub struct F1_24Adapter {
    inner: F1Adapter,
}

impl F1_24Adapter {
    /// The generic F1 adapter it drives.
    pub closed spec fn adapter(&self) -> F1Adapter {
        self.inner
    }

    /// Builds the adapter and its stable capability descriptor.
    pub fn new() -> (r: Result<F1_24Adapter, AdapterError>)
        ensures
            match r {
                Ok(a) => {
                    &&& a.adapter().game() == F1Game::F124
                    &&& a.adapter().session() is None && a.adapter().last_lap() is None
                    &&& a.adapter().drs_active() is None && a.adapter().drs_allowed() is None
                    &&& a.adapter().spec_descriptor().id.text() == adapter_id_of(F1Game::F124)
                    &&& a.adapter().spec_descriptor().capabilities.fields().to_set() == f1_capabilities(F1Game::F124)
                },
                Err(_) => false,
            },
    {
        let inner = F1Adapter::new(F1Game::F124)?;
        Ok(F1_24Adapter { inner })
    }

    /// Returns the adapter's stable identity, protocol and capabilities.
    pub fn descriptor(&self) -> (d: &AdapterDescriptor)
        ensures
            *d == self.adapter().spec_descriptor(),
    {
        self.inner.descriptor()
    }

    /// Decodes one datagram as the generic adapter does.
    pub fn decode_packet(&mut self, datagram: &[u8]) -> (r: Result<F1Packet, DecodeError>)
        ensures
            decoded_step(old(self).adapter(), datagram@, r, final(self).adapter()),
    {
        self.inner.decode_packet(datagram)
    }

    /// Reports a lap completed at `frame` as the generic adapter does.
    pub fn complete_lap(&mut self, frame: u32, current: Option<u16>) -> (completed: Option<u16>)
        ensures
            lap_step(old(self).adapter(), frame, current, completed, final(self).adapter()),
    {
        self.inner.complete_lap(frame, current)
    }
}

/// Built-in adapter for EA Sports F1 25 (packet formats 2025 and 2026).
#[derive(Debug)]
pub struct F1_25Adapter {
    inner: F1Adapter,
}

impl F1_25Adapter {
    /// The generic F1 adapter it drives.
    pub closed spec fn adapter(&self) -> F1Adapter {
        self.inner
    }

    /// Builds the adapter and its stable capability descriptor.
    pub fn new() -> (r: Result<F1_25Adapter, AdapterError>)
        ensures
            match r {
                Ok(a) => {
                    &&& a.adapter().game() == F1Game::F125
                    &&& a.adapter().session() is None && a.adapter().last_lap() is None
                    &&& a.adapter().drs_active() is None && a.adapter().drs_allowed() is None
                    &&& a.adapter().spec_descriptor().id.text() == adapter_id_of(F1Game::F125)
                    &&& a.adapter().spec_descriptor().capabilities.fields().to_set() == f1_capabilities(F1Game::F125)
                },
                Err(_) => false,
            },
    {
        let inner = F1Adapter::new(F1Game::F125)?;
        Ok(F1_25Adapter { inner })
    }

    /// Returns the adapter's stable identity, protocol and capabilities.
    pub fn descriptor(&self) -> (d: &AdapterDescriptor)
        ensures
            *d == self.adapter().spec_descriptor(),
    {
        self.inner.descriptor()
    }

    /// Decodes one datagram as the generic adapter does.
    pub fn decode_packet(&mut self, datagram: &[u8]) -> (r: Result<F1Packet, DecodeError>)
        ensures
            decoded_step(old(self).adapter(), datagram@, r, final(self).adapter()),
    {
        self.inner.decode_packet(datagram)
    }

    /// Reports a lap completed at `frame` as the generic adapter does.
    pub fn complete_lap(&mut self, frame: u32, current: Option<u16>) -> (completed: Option<u16>)
        ensures
            lap_step(old(self).adapter(), frame, current, completed, final(self).adapter()),
    {
        self.inner.complete_lap(frame, current)
    }
}

} // verus!
