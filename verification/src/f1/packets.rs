//! Fixed-layout F1 packets: validation, player-entry selection and decoding.

use vstd::prelude::*;

use super::bytes::{
    finite_bits, is_finite, is_non_negative_finite, is_percent, le_i8, le_real, le_u16, le_u32,
    non_negative_finite_bits, percent_bits, read_i8, read_real, read_u16, read_u32,
};
use super::error::DecodeError;
use super::header::{PacketHeader, PACKET_HEADER_LEN};
use crate::telemetry::model::Real;

verus! {

/// Packet id assigned to Session Data by the supported F1 specifications.
pub const SESSION_PACKET_ID: u8 = 1;
/// Packet id assigned to Lap Data by the supported F1 specifications.
pub const LAP_DATA_PACKET_ID: u8 = 2;
/// Packet id assigned to Event Data by the supported F1 specifications.
pub const EVENT_PACKET_ID: u8 = 3;
/// Packet id assigned to Car Telemetry by the supported F1 specifications.
pub const CAR_TELEMETRY_PACKET_ID: u8 = 6;
/// Packet id assigned to Car Status by the supported F1 specifications.
pub const CAR_STATUS_PACKET_ID: u8 = 7;
/// Packet id assigned to Car Damage by the supported F1 specifications.
pub const CAR_DAMAGE_PACKET_ID: u8 = 10;
/// Packet id assigned to Car Telemetry 2 by the 2026 Season Pack specification.
pub const CAR_TELEMETRY2_PACKET_ID: u8 = 16;

/// Packet version implemented for every supported packet type.
pub const PACKET_VERSION: u8 = 1;
/// Car Telemetry packet version implemented for compatibility with the original public API.
pub const CAR_TELEMETRY_PACKET_VERSION: u8 = 1;

/// Number of car entries in F1 24 and original F1 25 packets.
pub const F1_CAR_COUNT: usize = 22;
/// Number of car entries in F1 25 2026 Season Pack packets.
pub const F1_25_2026_CAR_COUNT: usize = 24;

/// Packed byte length of one F1 24 or original F1 25 `CarTelemetryData` entry.
pub const CAR_TELEMETRY_DATA_LEN: usize = 60;
/// Packed byte length of one complete F1 24 or original F1 25 Car Telemetry datagram.
pub const CAR_TELEMETRY_PACKET_LEN: usize = 1352;
/// Packed byte length of one 2026 Season Pack `CarTelemetryData` entry.
pub const F1_25_2026_CAR_TELEMETRY_DATA_LEN: usize = 59;
/// Packed byte length of one complete 2026 Season Pack Car Telemetry datagram.
pub const F1_25_2026_CAR_TELEMETRY_PACKET_LEN: usize = 1448;
/// Packed byte length of a F1 24/original F1 25 Session datagram.
pub const SESSION_PACKET_LEN: usize = 753;
/// Packed byte length of a 2026 Season Pack Session datagram.
pub const F1_25_2026_SESSION_PACKET_LEN: usize = 926;
/// Packed byte length of one Lap Data entry.
pub const LAP_DATA_LEN: usize = 57;
/// Packed byte length of a F1 24/original F1 25 Lap Data datagram.
pub const LAP_DATA_PACKET_LEN: usize = 1285;
/// Packed byte length of a 2026 Season Pack Lap Data datagram.
pub const F1_25_2026_LAP_DATA_PACKET_LEN: usize = 1399;
/// Packed byte length of every supported Event datagram.
pub const EVENT_PACKET_LEN: usize = 45;
/// Packed byte length of one F1 24/original F1 25 Car Status entry.
pub const CAR_STATUS_DATA_LEN: usize = 55;
/// Packed byte length of a F1 24/original F1 25 Car Status datagram.
pub const CAR_STATUS_PACKET_LEN: usize = 1239;
/// Packed byte length of one 2026 Season Pack Car Status entry.
pub const F1_25_2026_CAR_STATUS_DATA_LEN: usize = 59;
/// Packed byte length of a 2026 Season Pack Car Status datagram.
pub const F1_25_2026_CAR_STATUS_PACKET_LEN: usize = 1445;
/// Packed byte length of one F1 24 Car Damage entry.
pub const F1_24_CAR_DAMAGE_DATA_LEN: usize = 42;
/// Packed byte length of a F1 24 Car Damage datagram.
pub const F1_24_CAR_DAMAGE_PACKET_LEN: usize = 953;
/// Packed byte length of one F1 25 Car Damage entry.
pub const F1_25_CAR_DAMAGE_DATA_LEN: usize = 46;
/// Packed byte length of an original F1 25 Car Damage datagram.
pub const F1_25_CAR_DAMAGE_PACKET_LEN: usize = 1041;
/// Packed byte length of a 2026 Season Pack Car Damage datagram.
pub const F1_25_2026_CAR_DAMAGE_PACKET_LEN: usize = 1133;
/// Packed byte length of one 2026 Season Pack Car Telemetry 2 entry.
pub const CAR_TELEMETRY2_DATA_LEN: usize = 10;
/// Packed byte length of a 2026 Season Pack Car Telemetry 2 datagram.
pub const CAR_TELEMETRY2_PACKET_LEN: usize = 269;

/// Exact packed layouts selected only after validating `packetFormat`.
#[derive(Debug, Clone, Copy, PartialEq, Eq)]
pub struct F1Layout {
    /// Packet format this layout decodes.
    pub packet_format: u16,
    /// Number of car entries per car array.
    pub car_count: usize,
    /// Session datagram length.
    pub session_packet_len: usize,
    /// Lap Data datagram length.
    pub lap_packet_len: usize,
    /// Car Telemetry entry length.
    pub car_telemetry_data_len: usize,
    /// Car Telemetry datagram length.
    pub car_telemetry_packet_len: usize,
    /// Car Status entry length.
    pub car_status_data_len: usize,
    /// Car Status datagram length.
    pub car_status_packet_len: usize,
    /// Car Damage entry length.
    pub car_damage_data_len: usize,
    /// Car Damage datagram length.
    pub car_damage_packet_len: usize,
    /// Car Telemetry 2 entry and datagram lengths, where the format has them.
    pub car_telemetry2: Option<(usize, usize)>,
}

/// Whether `layout` is one of the three official packed layouts.
pub open spec fn official_layout(layout: F1Layout) -> bool {
    layout == f1_24_layout_spec() || layout == f1_25_layout_spec() || layout == f1_25_2026_layout_spec()
}

/// The F1 24 packed layout.
pub open spec fn f1_24_layout_spec() -> F1Layout {
    F1Layout {
        packet_format: 2024,
        car_count: F1_CAR_COUNT,
        session_packet_len: SESSION_PACKET_LEN,
        lap_packet_len: LAP_DATA_PACKET_LEN,
        car_telemetry_data_len: CAR_TELEMETRY_DATA_LEN,
        car_telemetry_packet_len: CAR_TELEMETRY_PACKET_LEN,
        car_status_data_len: CAR_STATUS_DATA_LEN,
        car_status_packet_len: CAR_STATUS_PACKET_LEN,
        car_damage_data_len: F1_24_CAR_DAMAGE_DATA_LEN,
        car_damage_packet_len: F1_24_CAR_DAMAGE_PACKET_LEN,
        car_telemetry2: None,
    }
}

/// The original F1 25 packed layout.
pub open spec fn f1_25_layout_spec() -> F1Layout {
    F1Layout {
        packet_format: 2025,
        car_count: F1_CAR_COUNT,
        session_packet_len: SESSION_PACKET_LEN,
        lap_packet_len: LAP_DATA_PACKET_LEN,
        car_telemetry_data_len: CAR_TELEMETRY_DATA_LEN,
        car_telemetry_packet_len: CAR_TELEMETRY_PACKET_LEN,
        car_status_data_len: CAR_STATUS_DATA_LEN,
        car_status_packet_len: CAR_STATUS_PACKET_LEN,
        car_damage_data_len: F1_25_CAR_DAMAGE_DATA_LEN,
        car_damage_packet_len: F1_25_CAR_DAMAGE_PACKET_LEN,
        car_telemetry2: None,
    }
}

/// The F1 25 2026 Season Pack packed layout.
pub open spec fn f1_25_2026_layout_spec() -> F1Layout {
    F1Layout {
        packet_format: 2026,
        car_count: F1_25_2026_CAR_COUNT,
        session_packet_len: F1_25_2026_SESSION_PACKET_LEN,
        lap_packet_len: F1_25_2026_LAP_DATA_PACKET_LEN,
        car_telemetry_data_len: F1_25_2026_CAR_TELEMETRY_DATA_LEN,
        car_telemetry_packet_len: F1_25_2026_CAR_TELEMETRY_PACKET_LEN,
        car_status_data_len: F1_25_2026_CAR_STATUS_DATA_LEN,
        car_status_packet_len: F1_25_2026_CAR_STATUS_PACKET_LEN,
        car_damage_data_len: F1_25_CAR_DAMAGE_DATA_LEN,
        car_damage_packet_len: F1_25_2026_CAR_DAMAGE_PACKET_LEN,
        car_telemetry2: Some((CAR_TELEMETRY2_DATA_LEN, CAR_TELEMETRY2_PACKET_LEN)),
    }
}

/// Returns the F1 24 packed layout.
pub fn f1_24_layout() -> (l: F1Layout)
    ensures
        l == f1_24_layout_spec(),
{
    F1Layout {
        packet_format: 2024,
        car_count: F1_CAR_COUNT,
        session_packet_len: SESSION_PACKET_LEN,
        lap_packet_len: LAP_DATA_PACKET_LEN,
        car_telemetry_data_len: CAR_TELEMETRY_DATA_LEN,
        car_telemetry_packet_len: CAR_TELEMETRY_PACKET_LEN,
        car_status_data_len: CAR_STATUS_DATA_LEN,
        car_status_packet_len: CAR_STATUS_PACKET_LEN,
        car_damage_data_len: F1_24_CAR_DAMAGE_DATA_LEN,
        car_damage_packet_len: F1_24_CAR_DAMAGE_PACKET_LEN,
        car_telemetry2: None,
    }
}

/// Returns the original F1 25 packed layout.
pub fn f1_25_layout() -> (l: F1Layout)
    ensures
        l == f1_25_layout_spec(),
{
    F1Layout {
        packet_format: 2025,
        car_count: F1_CAR_COUNT,
        session_packet_len: SESSION_PACKET_LEN,
        lap_packet_len: LAP_DATA_PACKET_LEN,
        car_telemetry_data_len: CAR_TELEMETRY_DATA_LEN,
        car_telemetry_packet_len: CAR_TELEMETRY_PACKET_LEN,
        car_status_data_len: CAR_STATUS_DATA_LEN,
        car_status_packet_len: CAR_STATUS_PACKET_LEN,
        car_damage_data_len: F1_25_CAR_DAMAGE_DATA_LEN,
        car_damage_packet_len: F1_25_CAR_DAMAGE_PACKET_LEN,
        car_telemetry2: None,
    }
}

/// Returns the F1 25 2026 Season Pack packed layout.
pub fn f1_25_2026_layout() -> (l: F1Layout)
    ensures
        l == f1_25_2026_layout_spec(),
{
    F1Layout {
        packet_format: 2026,
        car_count: F1_25_2026_CAR_COUNT,
        session_packet_len: F1_25_2026_SESSION_PACKET_LEN,
        lap_packet_len: F1_25_2026_LAP_DATA_PACKET_LEN,
        car_telemetry_data_len: F1_25_2026_CAR_TELEMETRY_DATA_LEN,
        car_telemetry_packet_len: F1_25_2026_CAR_TELEMETRY_PACKET_LEN,
        car_status_data_len: F1_25_2026_CAR_STATUS_DATA_LEN,
        car_status_packet_len: F1_25_2026_CAR_STATUS_PACKET_LEN,
        car_damage_data_len: F1_25_CAR_DAMAGE_DATA_LEN,
        car_damage_packet_len: F1_25_2026_CAR_DAMAGE_PACKET_LEN,
        car_telemetry2: Some((CAR_TELEMETRY2_DATA_LEN, CAR_TELEMETRY2_PACKET_LEN)),
    }
}

/// Four per-corner values, named by corner.
#[derive(Debug, Clone, Copy, PartialEq, Eq, Structural)]
pub struct Corners<T> {
    /// Rear-left corner.
    pub rear_left: T,
    /// Rear-right corner.
    pub rear_right: T,
    /// Front-left corner.
    pub front_left: T,
    /// Front-right corner.
    pub front_right: T,
}

/// Player values of a Car Telemetry packet.
#[derive(Debug, Clone, Copy, PartialEq, Eq, Structural)]
pub struct CarTelemetrySample {
    /// Speed in kilometres per hour.
    pub speed_kph: u16,
    /// Throttle application as sent.
    pub throttle: Real,
    /// Brake application as sent.
    pub brake: Real,
    /// Gear: -1 reverse, 0 neutral, then forward gears.
    pub gear: i8,
    /// Engine revolutions per minute.
    pub engine_rpm: u16,
    /// Whether DRS is open.
    pub drs_active: bool,
    /// Shift-light progression in percent.
    pub rev_lights_percent: u8,
    /// Tyre surface temperatures in degrees Celsius.
    pub tyre_surface_temperature_c: Corners<u8>,
    /// Tyre inner temperatures in degrees Celsius.
    pub tyre_inner_temperature_c: Corners<u8>,
    /// Tyre pressures in PSI, finite and not below zero.
    pub tyre_pressure_psi: Corners<Real>,
}

/// Player values of a Car Status packet.
#[derive(Debug, Clone, Copy, PartialEq, Eq, Structural)]
pub struct CarStatusSample {
    /// Whether the pit limiter is on.
    pub pit_limiter_active: bool,
    /// Fuel in the tank in kilograms.
    pub fuel_kg: Real,
    /// Fuel capacity in kilograms.
    pub fuel_capacity_kg: Real,
    /// Laps of fuel remaining.
    pub fuel_remaining_laps: Real,
    /// Engine revolutions per minute at the limiter.
    pub rpm_max: u16,
    /// Whether DRS may be used.
    pub drs_allowed: bool,
    /// Actual tyre compound code.
    pub actual_tyre_compound: u8,
    /// Visual tyre compound code.
    pub visual_tyre_compound: u8,
    /// Tyre age in laps.
    pub tyre_age_laps: u8,
    /// FIA flag code: -1 unknown, 0 none, then green, blue, yellow, red.
    pub vehicle_fia_flag: i8,
    /// ERS store energy in joules.
    pub ers_store_energy_j: Real,
}

/// Player values of a Car Damage packet.
#[derive(Debug, Clone, Copy, PartialEq, Eq, Structural)]
pub struct CarDamageSample {
    /// Tyre wear in percent.
    pub tyre_wear_percent: Corners<Real>,
    /// Tyre damage in percent.
    pub tyre_damage_percent: Corners<u8>,
    /// Brake damage in percent.
    pub brake_damage_percent: Corners<u8>,
    /// Tyre blistering in percent, in the F1 25 layout.
    pub tyre_blister_percent: Option<Corners<u8>>,
    /// Front-left wing damage in percent.
    pub front_left_wing_percent: u8,
    /// Front-right wing damage in percent.
    pub front_right_wing_percent: u8,
    /// Rear wing damage in percent.
    pub rear_wing_percent: u8,
    /// Floor damage in percent.
    pub floor_percent: u8,
    /// Diffuser damage in percent.
    pub diffuser_percent: u8,
    /// Sidepod damage in percent.
    pub sidepod_percent: u8,
    /// Whether DRS has failed.
    pub drs_fault: bool,
    /// Whether ERS has failed.
    pub ers_fault: bool,
    /// Gearbox damage in percent.
    pub gearbox_percent: u8,
    /// Engine damage in percent.
    pub engine_percent: u8,
    /// MGU-H wear in percent.
    pub engine_mguh_wear_percent: u8,
    /// Energy store wear in percent.
    pub engine_es_wear_percent: u8,
    /// Control electronics wear in percent.
    pub engine_ce_wear_percent: u8,
    /// Internal combustion engine wear in percent.
    pub engine_ice_wear_percent: u8,
    /// MGU-K wear in percent.
    pub engine_mguk_wear_percent: u8,
    /// Turbocharger wear in percent.
    pub engine_tc_wear_percent: u8,
    /// Whether the engine has blown.
    pub engine_blown: bool,
    /// Whether the engine has seized.
    pub engine_seized: bool,
}

/// Player values of a 2026 Season Pack Car Telemetry 2 packet.
#[derive(Debug, Clone, Copy, PartialEq, Eq, Structural)]
pub struct CarTelemetry2Sample {
    /// Active-aero mode: 0 corner, 1 straight.
    pub active_aero_mode: u8,
    /// Whether active aero may be used.
    pub active_aero_available: bool,
    /// Distance to the active-aero activation point in metres.
    pub active_aero_activation_distance_m: u16,
    /// Whether overtake mode may be used.
    pub overtake_available: bool,
    /// Whether overtake mode is active.
    pub overtake_active: bool,
    /// Distance to the overtake activation point in metres.
    pub overtake_activation_distance_m: u16,
    /// Whether the 2026 regulations apply.
    pub regulations_2026: bool,
    /// Whether the car is driving the wrong way.
    pub driving_wrong_way: bool,
}

/// Player values of a Lap Data packet.
#[derive(Debug, Clone, Copy, PartialEq, Eq, Structural)]
pub struct LapSample {
    /// Previous lap time in milliseconds.
    pub last_lap_time_ms: u32,
    /// Current lap time in milliseconds.
    pub current_lap_time_ms: u32,
    /// Sector 1 time, millisecond part.
    pub sector1_time_ms_part: u16,
    /// Sector 1 time, minute part.
    pub sector1_time_minutes_part: u8,
    /// Sector 2 time, millisecond part.
    pub sector2_time_ms_part: u16,
    /// Sector 2 time, minute part.
    pub sector2_time_minutes_part: u8,
    /// Delta to the car in front, millisecond part.
    pub delta_to_car_in_front_ms_part: u16,
    /// Delta to the car in front, minute part.
    pub delta_to_car_in_front_minutes_part: u8,
    /// Delta to the race leader, millisecond part.
    pub delta_to_race_leader_ms_part: u16,
    /// Delta to the race leader, minute part.
    pub delta_to_race_leader_minutes_part: u8,
    /// Distance around the current lap in metres.
    pub lap_distance_m: Real,
    /// Total session distance in metres.
    pub total_distance_m: Real,
    /// Delta to the safety car in seconds.
    pub safety_car_delta_s: Real,
    /// Race position.
    pub car_position: u8,
    /// Current lap number.
    pub current_lap_number: u8,
    /// Pit status code.
    pub pit_status: u8,
    /// Pit stops taken.
    pub pit_stops: u8,
    /// Zero-based sector.
    pub sector: u8,
    /// Whether the current lap is invalid, as a byte.
    pub current_lap_invalid: u8,
    /// Accumulated time penalties in seconds.
    pub penalties_seconds: u8,
    /// Warnings issued.
    pub warnings: u8,
    /// Corner-cutting warnings issued.
    pub corner_cutting_warnings: u8,
    /// Unserved drive-through penalties.
    pub unserved_drive_through_penalties: u8,
    /// Unserved stop-go penalties.
    pub unserved_stop_go_penalties: u8,
    /// Grid position.
    pub grid_position: u8,
    /// Driver status code.
    pub driver_status: u8,
    /// Result status code.
    pub result_status: u8,
    /// Whether the pit-lane timer runs, as a byte.
    pub pit_lane_timer_active: u8,
    /// Pit-lane time in milliseconds.
    pub pit_lane_time_ms: u16,
    /// Pit-stop time in milliseconds.
    pub pit_stop_time_ms: u16,
    /// Whether the stop serves a penalty, as a byte.
    pub pit_stop_should_serve_penalty: u8,
}

/// Session values of a Session packet.
#[derive(Debug, Clone, Copy, PartialEq, Eq, Structural)]
pub struct SessionSample {
    /// Weather code.
    pub weather: u8,
    /// Track temperature in degrees Celsius.
    pub track_temperature_c: i8,
    /// Air temperature in degrees Celsius.
    pub air_temperature_c: i8,
    /// Total laps of the session.
    pub total_laps: u8,
    /// Track length in metres.
    pub track_length_m: u16,
    /// Session type code.
    pub session_type: u8,
    /// Track identifier, -1 when unknown.
    pub track_id: i8,
    /// Session time left in seconds.
    pub session_time_left_s: u16,
    /// Pit speed limit in kilometres per hour.
    pub pit_speed_limit_kph: u8,
    /// Safety-car status code.
    pub safety_car_status: u8,
}

/// Code and detail bytes of an Event packet.
#[derive(Debug, Clone, Copy, PartialEq, Eq)]
pub struct EventSample {
    /// Four-letter event code.
    pub code: [u8; 4],
    /// Event-specific detail bytes.
    pub details: [u8; 12],
}

/// What checking a packet's header against its expected id, version and
/// length gives.
pub open spec fn packet_check(h: PacketHeader, datagram_len: nat, packet_id: u8, expected_len: nat) -> Result<(), DecodeError> {
    if h.packet_id != packet_id {
        Err(DecodeError::UnexpectedPacketId { expected: packet_id, actual: h.packet_id })
    } else if h.packet_version != PACKET_VERSION {
        Err(DecodeError::UnsupportedPacketVersion { packet_id: h.packet_id, expected: PACKET_VERSION, actual: h.packet_version })
    } else if datagram_len != expected_len {
        Err(DecodeError::InvalidPacketLength { packet_id: h.packet_id, expected: expected_len as usize, actual: datagram_len as usize })
    } else {
        Ok(())
    }
}

/// Checks a packet's id, version and exact length.
pub fn validate_packet(header: &PacketHeader, datagram_len: usize, packet_id: u8, expected_len: usize) -> (r: Result<(), DecodeError>)
    ensures
        r == packet_check(*header, datagram_len as nat, packet_id, expected_len as nat),
{
    if header.packet_id != packet_id {
        return Err(DecodeError::UnexpectedPacketId { expected: packet_id, actual: header.packet_id });
    }
    if header.packet_version != PACKET_VERSION {
        return Err(DecodeError::UnsupportedPacketVersion {
            packet_id: header.packet_id,
            expected: PACKET_VERSION,
            actual: header.packet_version,
        });
    }
    if datagram_len != expected_len {
        return Err(DecodeError::InvalidPacketLength {
            packet_id: header.packet_id,
            expected: expected_len,
            actual: datagram_len,
        });
    }
    Ok(())
}

/// What selecting the player's entry of `entry_len` bytes from a car array of
/// `car_count` entries gives.
pub open spec fn entry_check(h: PacketHeader, payload_len: nat, car_count: nat, entry_len: nat) -> Result<(), DecodeError> {
    let start = h.player_car_index * entry_len;
    if h.player_car_index >= car_count {
        Err(DecodeError::InvalidPlayerIndex { index: h.player_car_index, car_count: car_count as usize })
    } else if start + entry_len > payload_len {
        Err(DecodeError::UnexpectedEnd {
            offset: start as usize,
            needed: entry_len as usize,
            remaining: (if payload_len >= start { payload_len - start } else { 0 }) as usize,
        })
    } else {
        Ok(())
    }
}

/// The player's entry within `payload`.
pub open spec fn entry_of(h: PacketHeader, payload: Seq<u8>, entry_len: nat) -> Seq<u8> {
    payload.subrange(h.player_car_index * entry_len, h.player_car_index * entry_len + entry_len)
}

/// Selects the player's entry from a car array.
pub fn player_entry<'a>(header: &PacketHeader, payload: &'a [u8], car_count: usize, entry_len: usize) -> (r: Result<&'a [u8], DecodeError>)
    requires
        entry_len <= 100,
    ensures
        match r {
            Ok(e) => entry_check(*header, payload@.len(), car_count as nat, entry_len as nat) == Ok::<(), DecodeError>(())
                && e@ == entry_of(*header, payload@, entry_len as nat),
            Err(err) => entry_check(*header, payload@.len(), car_count as nat, entry_len as nat) == Err::<(), DecodeError>(err),
        },
{
    let player_index = header.player_car_index as usize;
    if player_index >= car_count {
        return Err(DecodeError::InvalidPlayerIndex { index: header.player_car_index, car_count });
    }
    assert(player_index * entry_len <= 255 * 100) by (nonlinear_arith)
        requires
            player_index <= 255,
            entry_len <= 100,
    ;
    let start = player_index * entry_len;
    let end = start + entry_len;
    if end > payload.len() {
        let remaining = if payload.len() >= start { payload.len() - start } else { 0 };
        return Err(DecodeError::UnexpectedEnd { offset: start, needed: entry_len, remaining });
    }
    Ok(vstd::slice::slice_subrange(payload, start, end))
}

/// The first check that the legacy Car Telemetry entry `e` fails, if any.
pub open spec fn telemetry_legacy_error(e: Seq<u8>) -> Option<DecodeError> {
    if e[18] > 1 {
        Some(DecodeError::InvalidEnumValue { field: "drs", actual: e[18] })
    } else if !non_negative_finite_bits(le_u32(e, 40)) {
        Some(DecodeError::InvalidNumericValue { field: "tyres_pressure", value: le_real(e, 40) })
    } else if !non_negative_finite_bits(le_u32(e, 44)) {
        Some(DecodeError::InvalidNumericValue { field: "tyres_pressure", value: le_real(e, 44) })
    } else if !non_negative_finite_bits(le_u32(e, 48)) {
        Some(DecodeError::InvalidNumericValue { field: "tyres_pressure", value: le_real(e, 48) })
    } else if !non_negative_finite_bits(le_u32(e, 52)) {
        Some(DecodeError::InvalidNumericValue { field: "tyres_pressure", value: le_real(e, 52) })
    } else {
        None
    }
}

/// The legacy Car Telemetry sample stored in the entry `e`.
pub open spec fn telemetry_legacy_sample(e: Seq<u8>) -> CarTelemetrySample {
    CarTelemetrySample {
        speed_kph: le_u16(e, 0),
        throttle: le_real(e, 2),
        brake: le_real(e, 10),
        gear: le_i8(e, 15),
        engine_rpm: le_u16(e, 16),
        drs_active: e[18] == 1,
        rev_lights_percent: e[19],
        tyre_surface_temperature_c: Corners { rear_left: e[30], rear_right: e[31], front_left: e[32], front_right: e[33] },
        tyre_inner_temperature_c: Corners { rear_left: e[34], rear_right: e[35], front_left: e[36], front_right: e[37] },
        tyre_pressure_psi: Corners { rear_left: le_real(e, 40), rear_right: le_real(e, 44), front_left: le_real(e, 48), front_right: le_real(e, 52) },
    }
}

fn decode_telemetry_legacy(e: &[u8]) -> (r: Result<CarTelemetrySample, DecodeError>)
    requires
        e@.len() == 60,
    ensures
        r == (match telemetry_legacy_error(e@) {
            Some(err) => Err(err),
            None => Ok(telemetry_legacy_sample(e@)),
        }),
{
    if e[18] > 1 {
        return Err(DecodeError::InvalidEnumValue { field: "drs", actual: e[18] });
    }
    if !is_non_negative_finite(read_real(e, 40)) {
        return Err(DecodeError::InvalidNumericValue { field: "tyres_pressure", value: read_real(e, 40) });
    }
    if !is_non_negative_finite(read_real(e, 44)) {
        return Err(DecodeError::InvalidNumericValue { field: "tyres_pressure", value: read_real(e, 44) });
    }
    if !is_non_negative_finite(read_real(e, 48)) {
        return Err(DecodeError::InvalidNumericValue { field: "tyres_pressure", value: read_real(e, 48) });
    }
    if !is_non_negative_finite(read_real(e, 52)) {
        return Err(DecodeError::InvalidNumericValue { field: "tyres_pressure", value: read_real(e, 52) });
    }
    Ok(CarTelemetrySample {
        speed_kph: read_u16(e, 0),
        throttle: read_real(e, 2),
        brake: read_real(e, 10),
        gear: read_i8(e, 15),
        engine_rpm: read_u16(e, 16),
        drs_active: e[18] == 1,
        rev_lights_percent: e[19],
        tyre_surface_temperature_c: Corners { rear_left: e[30], rear_right: e[31], front_left: e[32], front_right: e[33] },
        tyre_inner_temperature_c: Corners { rear_left: e[34], rear_right: e[35], front_left: e[36], front_right: e[37] },
        tyre_pressure_psi: Corners { rear_left: read_real(e, 40), rear_right: read_real(e, 44), front_left: read_real(e, 48), front_right: read_real(e, 52) },
    })
}

/// The first check that the 2026 Season Pack Car Telemetry entry `e` fails, if any.
pub open spec fn telemetry_season_error(e: Seq<u8>) -> Option<DecodeError> {
    if e[18] > 1 {
        Some(DecodeError::InvalidEnumValue { field: "drs", actual: e[18] })
    } else if !non_negative_finite_bits(le_u32(e, 39)) {
        Some(DecodeError::InvalidNumericValue { field: "tyres_pressure", value: le_real(e, 39) })
    } else if !non_negative_finite_bits(le_u32(e, 43)) {
        Some(DecodeError::InvalidNumericValue { field: "tyres_pressure", value: le_real(e, 43) })
    } else if !non_negative_finite_bits(le_u32(e, 47)) {
        Some(DecodeError::InvalidNumericValue { field: "tyres_pressure", value: le_real(e, 47) })
    } else if !non_negative_finite_bits(le_u32(e, 51)) {
        Some(DecodeError::InvalidNumericValue { field: "tyres_pressure", value: le_real(e, 51) })
    } else {
        None
    }
}

/// The 2026 Season Pack Car Telemetry sample stored in the entry `e`.
pub open spec fn telemetry_season_sample(e: Seq<u8>) -> CarTelemetrySample {
    CarTelemetrySample {
        speed_kph: le_u16(e, 0),
        throttle: le_real(e, 2),
        brake: le_real(e, 10),
        gear: le_i8(e, 15),
        engine_rpm: le_u16(e, 16),
        drs_active: e[18] == 1,
        rev_lights_percent: e[19],
        tyre_surface_temperature_c: Corners { rear_left: e[30], rear_right: e[31], front_left: e[32], front_right: e[33] },
        tyre_inner_temperature_c: Corners { rear_left: e[34], rear_right: e[35], front_left: e[36], front_right: e[37] },
        tyre_pressure_psi: Corners { rear_left: le_real(e, 39), rear_right: le_real(e, 43), front_left: le_real(e, 47), front_right: le_real(e, 51) },
    }
}

fn decode_telemetry_season(e: &[u8]) -> (r: Result<CarTelemetrySample, DecodeError>)
    requires
        e@.len() == 59,
    ensures
        r == (match telemetry_season_error(e@) {
            Some(err) => Err(err),
            None => Ok(telemetry_season_sample(e@)),
        }),
{
    if e[18] > 1 {
        return Err(DecodeError::InvalidEnumValue { field: "drs", actual: e[18] });
    }
    if !is_non_negative_finite(read_real(e, 39)) {
        return Err(DecodeError::InvalidNumericValue { field: "tyres_pressure", value: read_real(e, 39) });
    }
    if !is_non_negative_finite(read_real(e, 43)) {
        return Err(DecodeError::InvalidNumericValue { field: "tyres_pressure", value: read_real(e, 43) });
    }
    if !is_non_negative_finite(read_real(e, 47)) {
        return Err(DecodeError::InvalidNumericValue { field: "tyres_pressure", value: read_real(e, 47) });
    }
    if !is_non_negative_finite(read_real(e, 51)) {
        return Err(DecodeError::InvalidNumericValue { field: "tyres_pressure", value: read_real(e, 51) });
    }
    Ok(CarTelemetrySample {
        speed_kph: read_u16(e, 0),
        throttle: read_real(e, 2),
        brake: read_real(e, 10),
        gear: read_i8(e, 15),
        engine_rpm: read_u16(e, 16),
        drs_active: e[18] == 1,
        rev_lights_percent: e[19],
        tyre_surface_temperature_c: Corners { rear_left: e[30], rear_right: e[31], front_left: e[32], front_right: e[33] },
        tyre_inner_temperature_c: Corners { rear_left: e[34], rear_right: e[35], front_left: e[36], front_right: e[37] },
        tyre_pressure_psi: Corners { rear_left: read_real(e, 39), rear_right: read_real(e, 43), front_left: read_real(e, 47), front_right: read_real(e, 51) },
    })
}

/// The first check that the legacy Car Status entry `e` fails, if any.
pub open spec fn status_legacy_error(e: Seq<u8>) -> Option<DecodeError> {
    if e[4] > 1 {
        Some(DecodeError::InvalidEnumValue { field: "pit_limiter_status", actual: e[4] })
    } else if e[22] > 1 {
        Some(DecodeError::InvalidEnumValue { field: "drs_allowed", actual: e[22] })
    } else if !finite_bits(le_u32(e, 5)) {
        Some(DecodeError::InvalidNumericValue { field: "fuel_in_tank", value: le_real(e, 5) })
    } else if !finite_bits(le_u32(e, 9)) {
        Some(DecodeError::InvalidNumericValue { field: "fuel_capacity", value: le_real(e, 9) })
    } else if !finite_bits(le_u32(e, 13)) {
        Some(DecodeError::InvalidNumericValue { field: "fuel_remaining_laps", value: le_real(e, 13) })
    } else if !finite_bits(le_u32(e, 29)) {
        Some(DecodeError::InvalidNumericValue { field: "engine_power_ice", value: le_real(e, 29) })
    } else if !finite_bits(le_u32(e, 33)) {
        Some(DecodeError::InvalidNumericValue { field: "engine_power_mguk", value: le_real(e, 33) })
    } else if !finite_bits(le_u32(e, 37)) {
        Some(DecodeError::InvalidNumericValue { field: "ers_store_energy", value: le_real(e, 37) })
    } else if !finite_bits(le_u32(e, 42)) {
        Some(DecodeError::InvalidNumericValue { field: "ers_harvested_mguk", value: le_real(e, 42) })
    } else if !finite_bits(le_u32(e, 46)) {
        Some(DecodeError::InvalidNumericValue { field: "ers_harvested_mguh", value: le_real(e, 46) })
    } else if !finite_bits(le_u32(e, 50)) {
        Some(DecodeError::InvalidNumericValue { field: "ers_deployed", value: le_real(e, 50) })
    } else {
        None
    }
}

/// The legacy Car Status sample stored in the entry `e`.
pub open spec fn status_legacy_sample(e: Seq<u8>) -> CarStatusSample {
    CarStatusSample {
        pit_limiter_active: e[4] == 1,
        fuel_kg: le_real(e, 5),
        fuel_capacity_kg: le_real(e, 9),
        fuel_remaining_laps: le_real(e, 13),
        rpm_max: le_u16(e, 17),
        drs_allowed: e[22] == 1,
        actual_tyre_compound: e[25],
        visual_tyre_compound: e[26],
        tyre_age_laps: e[27],
        vehicle_fia_flag: le_i8(e, 28),
        ers_store_energy_j: le_real(e, 37),
    }
}

fn decode_status_legacy(e: &[u8]) -> (r: Result<CarStatusSample, DecodeError>)
    requires
        e@.len() == 55,
    ensures
        r == (match status_legacy_error(e@) {
            Some(err) => Err(err),
            None => Ok(status_legacy_sample(e@)),
        }),
{
    if e[4] > 1 {
        return Err(DecodeError::InvalidEnumValue { field: "pit_limiter_status", actual: e[4] });
    }
    if e[22] > 1 {
        return Err(DecodeError::InvalidEnumValue { field: "drs_allowed", actual: e[22] });
    }
    if !is_finite(read_real(e, 5)) {
        return Err(DecodeError::InvalidNumericValue { field: "fuel_in_tank", value: read_real(e, 5) });
    }
    if !is_finite(read_real(e, 9)) {
        return Err(DecodeError::InvalidNumericValue { field: "fuel_capacity", value: read_real(e, 9) });
    }
    if !is_finite(read_real(e, 13)) {
        return Err(DecodeError::InvalidNumericValue { field: "fuel_remaining_laps", value: read_real(e, 13) });
    }
    if !is_finite(read_real(e, 29)) {
        return Err(DecodeError::InvalidNumericValue { field: "engine_power_ice", value: read_real(e, 29) });
    }
    if !is_finite(read_real(e, 33)) {
        return Err(DecodeError::InvalidNumericValue { field: "engine_power_mguk", value: read_real(e, 33) });
    }
    if !is_finite(read_real(e, 37)) {
        return Err(DecodeError::InvalidNumericValue { field: "ers_store_energy", value: read_real(e, 37) });
    }
    if !is_finite(read_real(e, 42)) {
        return Err(DecodeError::InvalidNumericValue { field: "ers_harvested_mguk", value: read_real(e, 42) });
    }
    if !is_finite(read_real(e, 46)) {
        return Err(DecodeError::InvalidNumericValue { field: "ers_harvested_mguh", value: read_real(e, 46) });
    }
    if !is_finite(read_real(e, 50)) {
        return Err(DecodeError::InvalidNumericValue { field: "ers_deployed", value: read_real(e, 50) });
    }
    Ok(CarStatusSample {
        pit_limiter_active: e[4] == 1,
        fuel_kg: read_real(e, 5),
        fuel_capacity_kg: read_real(e, 9),
        fuel_remaining_laps: read_real(e, 13),
        rpm_max: read_u16(e, 17),
        drs_allowed: e[22] == 1,
        actual_tyre_compound: e[25],
        visual_tyre_compound: e[26],
        tyre_age_laps: e[27],
        vehicle_fia_flag: read_i8(e, 28),
        ers_store_energy_j: read_real(e, 37),
    })
}

/// The first check that the 2026 Season Pack Car Status entry `e` fails, if any.
pub open spec fn status_season_error(e: Seq<u8>) -> Option<DecodeError> {
    if e[4] > 1 {
        Some(DecodeError::InvalidEnumValue { field: "pit_limiter_status", actual: e[4] })
    } else if e[22] > 1 {
        Some(DecodeError::InvalidEnumValue { field: "drs_allowed", actual: e[22] })
    } else if !finite_bits(le_u32(e, 5)) {
        Some(DecodeError::InvalidNumericValue { field: "fuel_in_tank", value: le_real(e, 5) })
    } else if !finite_bits(le_u32(e, 9)) {
        Some(DecodeError::InvalidNumericValue { field: "fuel_capacity", value: le_real(e, 9) })
    } else if !finite_bits(le_u32(e, 13)) {
        Some(DecodeError::InvalidNumericValue { field: "fuel_remaining_laps", value: le_real(e, 13) })
    } else if !finite_bits(le_u32(e, 29)) {
        Some(DecodeError::InvalidNumericValue { field: "engine_power_ice", value: le_real(e, 29) })
    } else if !finite_bits(le_u32(e, 33)) {
        Some(DecodeError::InvalidNumericValue { field: "engine_power_mguk", value: le_real(e, 33) })
    } else if !finite_bits(le_u32(e, 37)) {
        Some(DecodeError::InvalidNumericValue { field: "ers_store_energy", value: le_real(e, 37) })
    } else if !finite_bits(le_u32(e, 42)) {
        Some(DecodeError::InvalidNumericValue { field: "ers_harvested_mguk", value: le_real(e, 42) })
    } else if !finite_bits(le_u32(e, 46)) {
        Some(DecodeError::InvalidNumericValue { field: "ers_harvested_mguh", value: le_real(e, 46) })
    } else if !finite_bits(le_u32(e, 54)) {
        Some(DecodeError::InvalidNumericValue { field: "ers_deployed", value: le_real(e, 54) })
    } else if !finite_bits(le_u32(e, 50)) {
        Some(DecodeError::InvalidNumericValue { field: "ers_harvest_limit", value: le_real(e, 50) })
    } else {
        None
    }
}

/// The 2026 Season Pack Car Status sample stored in the entry `e`.
pub open spec fn status_season_sample(e: Seq<u8>) -> CarStatusSample {
    CarStatusSample {
        pit_limiter_active: e[4] == 1,
        fuel_kg: le_real(e, 5),
        fuel_capacity_kg: le_real(e, 9),
        fuel_remaining_laps: le_real(e, 13),
        rpm_max: le_u16(e, 17),
        drs_allowed: e[22] == 1,
        actual_tyre_compound: e[25],
        visual_tyre_compound: e[26],
        tyre_age_laps: e[27],
        vehicle_fia_flag: le_i8(e, 28),
        ers_store_energy_j: le_real(e, 37),
    }
}

fn decode_status_season(e: &[u8]) -> (r: Result<CarStatusSample, DecodeError>)
    requires
        e@.len() == 59,
    ensures
        r == (match status_season_error(e@) {
            Some(err) => Err(err),
            None => Ok(status_season_sample(e@)),
        }),
{
    if e[4] > 1 {
        return Err(DecodeError::InvalidEnumValue { field: "pit_limiter_status", actual: e[4] });
    }
    if e[22] > 1 {
        return Err(DecodeError::InvalidEnumValue { field: "drs_allowed", actual: e[22] });
    }
    if !is_finite(read_real(e, 5)) {
        return Err(DecodeError::InvalidNumericValue { field: "fuel_in_tank", value: read_real(e, 5) });
    }
    if !is_finite(read_real(e, 9)) {
        return Err(DecodeError::InvalidNumericValue { field: "fuel_capacity", value: read_real(e, 9) });
    }
    if !is_finite(read_real(e, 13)) {
        return Err(DecodeError::InvalidNumericValue { field: "fuel_remaining_laps", value: read_real(e, 13) });
    }
    if !is_finite(read_real(e, 29)) {
        return Err(DecodeError::InvalidNumericValue { field: "engine_power_ice", value: read_real(e, 29) });
    }
    if !is_finite(read_real(e, 33)) {
        return Err(DecodeError::InvalidNumericValue { field: "engine_power_mguk", value: read_real(e, 33) });
    }
    if !is_finite(read_real(e, 37)) {
        return Err(DecodeError::InvalidNumericValue { field: "ers_store_energy", value: read_real(e, 37) });
    }
    if !is_finite(read_real(e, 42)) {
        return Err(DecodeError::InvalidNumericValue { field: "ers_harvested_mguk", value: read_real(e, 42) });
    }
    if !is_finite(read_real(e, 46)) {
        return Err(DecodeError::InvalidNumericValue { field: "ers_harvested_mguh", value: read_real(e, 46) });
    }
    if !is_finite(read_real(e, 54)) {
        return Err(DecodeError::InvalidNumericValue { field: "ers_deployed", value: read_real(e, 54) });
    }
    if !is_finite(read_real(e, 50)) {
        return Err(DecodeError::InvalidNumericValue { field: "ers_harvest_limit", value: read_real(e, 50) });
    }
    Ok(CarStatusSample {
        pit_limiter_active: e[4] == 1,
        fuel_kg: read_real(e, 5),
        fuel_capacity_kg: read_real(e, 9),
        fuel_remaining_laps: read_real(e, 13),
        rpm_max: read_u16(e, 17),
        drs_allowed: e[22] == 1,
        actual_tyre_compound: e[25],
        visual_tyre_compound: e[26],
        tyre_age_laps: e[27],
        vehicle_fia_flag: read_i8(e, 28),
        ers_store_energy_j: read_real(e, 37),
    })
}

/// The first check that the F1 24 Car Damage entry `e` fails, if any.
pub open spec fn damage_f1_24_error(e: Seq<u8>) -> Option<DecodeError> {
    if !percent_bits(le_u32(e, 0)) {
        Some(DecodeError::InvalidNumericValue { field: "tyres_wear", value: le_real(e, 0) })
    } else if !percent_bits(le_u32(e, 4)) {
        Some(DecodeError::InvalidNumericValue { field: "tyres_wear", value: le_real(e, 4) })
    } else if !percent_bits(le_u32(e, 8)) {
        Some(DecodeError::InvalidNumericValue { field: "tyres_wear", value: le_real(e, 8) })
    } else if !percent_bits(le_u32(e, 12)) {
        Some(DecodeError::InvalidNumericValue { field: "tyres_wear", value: le_real(e, 12) })
    } else if e[16] > 100 {
        Some(DecodeError::InvalidEnumValue { field: "tyres_damage", actual: e[16] })
    } else if e[17] > 100 {
        Some(DecodeError::InvalidEnumValue { field: "tyres_damage", actual: e[17] })
    } else if e[18] > 100 {
        Some(DecodeError::InvalidEnumValue { field: "tyres_damage", actual: e[18] })
    } else if e[19] > 100 {
        Some(DecodeError::InvalidEnumValue { field: "tyres_damage", actual: e[19] })
    } else if e[20] > 100 {
        Some(DecodeError::InvalidEnumValue { field: "brakes_damage", actual: e[20] })
    } else if e[21] > 100 {
        Some(DecodeError::InvalidEnumValue { field: "brakes_damage", actual: e[21] })
    } else if e[22] > 100 {
        Some(DecodeError::InvalidEnumValue { field: "brakes_damage", actual: e[22] })
    } else if e[23] > 100 {
        Some(DecodeError::InvalidEnumValue { field: "brakes_damage", actual: e[23] })
    } else if e[24] > 100 {
        Some(DecodeError::InvalidEnumValue { field: "front_left_wing_damage", actual: e[24] })
    } else if e[25] > 100 {
        Some(DecodeError::InvalidEnumValue { field: "front_right_wing_damage", actual: e[25] })
    } else if e[26] > 100 {
        Some(DecodeError::InvalidEnumValue { field: "rear_wing_damage", actual: e[26] })
    } else if e[27] > 100 {
        Some(DecodeError::InvalidEnumValue { field: "floor_damage", actual: e[27] })
    } else if e[28] > 100 {
        Some(DecodeError::InvalidEnumValue { field: "diffuser_damage", actual: e[28] })
    } else if e[29] > 100 {
        Some(DecodeError::InvalidEnumValue { field: "sidepod_damage", actual: e[29] })
    } else if e[30] > 1 {
        Some(DecodeError::InvalidEnumValue { field: "drs_fault", actual: e[30] })
    } else if e[31] > 1 {
        Some(DecodeError::InvalidEnumValue { field: "ers_fault", actual: e[31] })
    } else if e[32] > 100 {
        Some(DecodeError::InvalidEnumValue { field: "gear_box_damage", actual: e[32] })
    } else if e[33] > 100 {
        Some(DecodeError::InvalidEnumValue { field: "engine_damage", actual: e[33] })
    } else if e[34] > 100 {
        Some(DecodeError::InvalidEnumValue { field: "engine_mguh_wear", actual: e[34] })
    } else if e[35] > 100 {
        Some(DecodeError::InvalidEnumValue { field: "engine_es_wear", actual: e[35] })
    } else if e[36] > 100 {
        Some(DecodeError::InvalidEnumValue { field: "engine_ce_wear", actual: e[36] })
    } else if e[37] > 100 {
        Some(DecodeError::InvalidEnumValue { field: "engine_ice_wear", actual: e[37] })
    } else if e[38] > 100 {
        Some(DecodeError::InvalidEnumValue { field: "engine_mguk_wear", actual: e[38] })
    } else if e[39] > 100 {
        Some(DecodeError::InvalidEnumValue { field: "engine_tc_wear", actual: e[39] })
    } else if e[40] > 1 {
        Some(DecodeError::InvalidEnumValue { field: "engine_blown", actual: e[40] })
    } else if e[41] > 1 {
        Some(DecodeError::InvalidEnumValue { field: "engine_seized", actual: e[41] })
    } else {
        None
    }
}

/// The F1 24 Car Damage sample stored in the entry `e`.
pub open spec fn damage_f1_24_sample(e: Seq<u8>) -> CarDamageSample {
    CarDamageSample {
        tyre_wear_percent: Corners { rear_left: le_real(e, 0), rear_right: le_real(e, 4), front_left: le_real(e, 8), front_right: le_real(e, 12) },
        tyre_damage_percent: Corners { rear_left: e[16], rear_right: e[17], front_left: e[18], front_right: e[19] },
        brake_damage_percent: Corners { rear_left: e[20], rear_right: e[21], front_left: e[22], front_right: e[23] },
        tyre_blister_percent: None,
        front_left_wing_percent: e[24],
        front_right_wing_percent: e[25],
        rear_wing_percent: e[26],
        floor_percent: e[27],
        diffuser_percent: e[28],
        sidepod_percent: e[29],
        drs_fault: e[30] == 1,
        ers_fault: e[31] == 1,
        gearbox_percent: e[32],
        engine_percent: e[33],
        engine_mguh_wear_percent: e[34],
        engine_es_wear_percent: e[35],
        engine_ce_wear_percent: e[36],
        engine_ice_wear_percent: e[37],
        engine_mguk_wear_percent: e[38],
        engine_tc_wear_percent: e[39],
        engine_blown: e[40] == 1,
        engine_seized: e[41] == 1,
    }
}

fn decode_damage_f1_24(e: &[u8]) -> (r: Result<CarDamageSample, DecodeError>)
    requires
        e@.len() == 42,
    ensures
        r == (match damage_f1_24_error(e@) {
            Some(err) => Err(err),
            None => Ok(damage_f1_24_sample(e@)),
        }),
{
    if !is_percent(read_real(e, 0)) {
        return Err(DecodeError::InvalidNumericValue { field: "tyres_wear", value: read_real(e, 0) });
    }
    if !is_percent(read_real(e, 4)) {
        return Err(DecodeError::InvalidNumericValue { field: "tyres_wear", value: read_real(e, 4) });
    }
    if !is_percent(read_real(e, 8)) {
        return Err(DecodeError::InvalidNumericValue { field: "tyres_wear", value: read_real(e, 8) });
    }
    if !is_percent(read_real(e, 12)) {
        return Err(DecodeError::InvalidNumericValue { field: "tyres_wear", value: read_real(e, 12) });
    }
    if e[16] > 100 {
        return Err(DecodeError::InvalidEnumValue { field: "tyres_damage", actual: e[16] });
    }
    if e[17] > 100 {
        return Err(DecodeError::InvalidEnumValue { field: "tyres_damage", actual: e[17] });
    }
    if e[18] > 100 {
        return Err(DecodeError::InvalidEnumValue { field: "tyres_damage", actual: e[18] });
    }
    if e[19] > 100 {
        return Err(DecodeError::InvalidEnumValue { field: "tyres_damage", actual: e[19] });
    }
    if e[20] > 100 {
        return Err(DecodeError::InvalidEnumValue { field: "brakes_damage", actual: e[20] });
    }
    if e[21] > 100 {
        return Err(DecodeError::InvalidEnumValue { field: "brakes_damage", actual: e[21] });
    }
    if e[22] > 100 {
        return Err(DecodeError::InvalidEnumValue { field: "brakes_damage", actual: e[22] });
    }
    if e[23] > 100 {
        return Err(DecodeError::InvalidEnumValue { field: "brakes_damage", actual: e[23] });
    }
    if e[24] > 100 {
        return Err(DecodeError::InvalidEnumValue { field: "front_left_wing_damage", actual: e[24] });
    }
    if e[25] > 100 {
        return Err(DecodeError::InvalidEnumValue { field: "front_right_wing_damage", actual: e[25] });
    }
    if e[26] > 100 {
        return Err(DecodeError::InvalidEnumValue { field: "rear_wing_damage", actual: e[26] });
    }
    if e[27] > 100 {
        return Err(DecodeError::InvalidEnumValue { field: "floor_damage", actual: e[27] });
    }
    if e[28] > 100 {
        return Err(DecodeError::InvalidEnumValue { field: "diffuser_damage", actual: e[28] });
    }
    if e[29] > 100 {
        return Err(DecodeError::InvalidEnumValue { field: "sidepod_damage", actual: e[29] });
    }
    if e[30] > 1 {
        return Err(DecodeError::InvalidEnumValue { field: "drs_fault", actual: e[30] });
    }
    if e[31] > 1 {
        return Err(DecodeError::InvalidEnumValue { field: "ers_fault", actual: e[31] });
    }
    if e[32] > 100 {
        return Err(DecodeError::InvalidEnumValue { field: "gear_box_damage", actual: e[32] });
    }
    if e[33] > 100 {
        return Err(DecodeError::InvalidEnumValue { field: "engine_damage", actual: e[33] });
    }
    if e[34] > 100 {
        return Err(DecodeError::InvalidEnumValue { field: "engine_mguh_wear", actual: e[34] });
    }
    if e[35] > 100 {
        return Err(DecodeError::InvalidEnumValue { field: "engine_es_wear", actual: e[35] });
    }
    if e[36] > 100 {
        return Err(DecodeError::InvalidEnumValue { field: "engine_ce_wear", actual: e[36] });
    }
    if e[37] > 100 {
        return Err(DecodeError::InvalidEnumValue { field: "engine_ice_wear", actual: e[37] });
    }
    if e[38] > 100 {
        return Err(DecodeError::InvalidEnumValue { field: "engine_mguk_wear", actual: e[38] });
    }
    if e[39] > 100 {
        return Err(DecodeError::InvalidEnumValue { field: "engine_tc_wear", actual: e[39] });
    }
    if e[40] > 1 {
        return Err(DecodeError::InvalidEnumValue { field: "engine_blown", actual: e[40] });
    }
    if e[41] > 1 {
        return Err(DecodeError::InvalidEnumValue { field: "engine_seized", actual: e[41] });
    }
    Ok(CarDamageSample {
        tyre_wear_percent: Corners { rear_left: read_real(e, 0), rear_right: read_real(e, 4), front_left: read_real(e, 8), front_right: read_real(e, 12) },
        tyre_damage_percent: Corners { rear_left: e[16], rear_right: e[17], front_left: e[18], front_right: e[19] },
        brake_damage_percent: Corners { rear_left: e[20], rear_right: e[21], front_left: e[22], front_right: e[23] },
        tyre_blister_percent: None,
        front_left_wing_percent: e[24],
        front_right_wing_percent: e[25],
        rear_wing_percent: e[26],
        floor_percent: e[27],
        diffuser_percent: e[28],
        sidepod_percent: e[29],
        drs_fault: e[30] == 1,
        ers_fault: e[31] == 1,
        gearbox_percent: e[32],
        engine_percent: e[33],
        engine_mguh_wear_percent: e[34],
        engine_es_wear_percent: e[35],
        engine_ce_wear_percent: e[36],
        engine_ice_wear_percent: e[37],
        engine_mguk_wear_percent: e[38],
        engine_tc_wear_percent: e[39],
        engine_blown: e[40] == 1,
        engine_seized: e[41] == 1,
    })
}

/// The first check that the F1 25 Car Damage entry `e` fails, if any.
pub open spec fn damage_f1_25_error(e: Seq<u8>) -> Option<DecodeError> {
    if !percent_bits(le_u32(e, 0)) {
        Some(DecodeError::InvalidNumericValue { field: "tyres_wear", value: le_real(e, 0) })
    } else if !percent_bits(le_u32(e, 4)) {
        Some(DecodeError::InvalidNumericValue { field: "tyres_wear", value: le_real(e, 4) })
    } else if !percent_bits(le_u32(e, 8)) {
        Some(DecodeError::InvalidNumericValue { field: "tyres_wear", value: le_real(e, 8) })
    } else if !percent_bits(le_u32(e, 12)) {
        Some(DecodeError::InvalidNumericValue { field: "tyres_wear", value: le_real(e, 12) })
    } else if e[16] > 100 {
        Some(DecodeError::InvalidEnumValue { field: "tyres_damage", actual: e[16] })
    } else if e[17] > 100 {
        Some(DecodeError::InvalidEnumValue { field: "tyres_damage", actual: e[17] })
    } else if e[18] > 100 {
        Some(DecodeError::InvalidEnumValue { field: "tyres_damage", actual: e[18] })
    } else if e[19] > 100 {
        Some(DecodeError::InvalidEnumValue { field: "tyres_damage", actual: e[19] })
    } else if e[20] > 100 {
        Some(DecodeError::InvalidEnumValue { field: "brakes_damage", actual: e[20] })
    } else if e[21] > 100 {
        Some(DecodeError::InvalidEnumValue { field: "brakes_damage", actual: e[21] })
    } else if e[22] > 100 {
        Some(DecodeError::InvalidEnumValue { field: "brakes_damage", actual: e[22] })
    } else if e[23] > 100 {
        Some(DecodeError::InvalidEnumValue { field: "brakes_damage", actual: e[23] })
    } else if e[24] > 100 {
        Some(DecodeError::InvalidEnumValue { field: "tyre_blisters", actual: e[24] })
    } else if e[25] > 100 {
        Some(DecodeError::InvalidEnumValue { field: "tyre_blisters", actual: e[25] })
    } else if e[26] > 100 {
        Some(DecodeError::InvalidEnumValue { field: "tyre_blisters", actual: e[26] })
    } else if e[27] > 100 {
        Some(DecodeError::InvalidEnumValue { field: "tyre_blisters", actual: e[27] })
    } else if e[28] > 100 {
        Some(DecodeError::InvalidEnumValue { field: "front_left_wing_damage", actual: e[28] })
    } else if e[29] > 100 {
        Some(DecodeError::InvalidEnumValue { field: "front_right_wing_damage", actual: e[29] })
    } else if e[30] > 100 {
        Some(DecodeError::InvalidEnumValue { field: "rear_wing_damage", actual: e[30] })
    } else if e[31] > 100 {
        Some(DecodeError::InvalidEnumValue { field: "floor_damage", actual: e[31] })
    } else if e[32] > 100 {
        Some(DecodeError::InvalidEnumValue { field: "diffuser_damage", actual: e[32] })
    } else if e[33] > 100 {
        Some(DecodeError::InvalidEnumValue { field: "sidepod_damage", actual: e[33] })
    } else if e[34] > 1 {
        Some(DecodeError::InvalidEnumValue { field: "drs_fault", actual: e[34] })
    } else if e[35] > 1 {
        Some(DecodeError::InvalidEnumValue { field: "ers_fault", actual: e[35] })
    } else if e[36] > 100 {
        Some(DecodeError::InvalidEnumValue { field: "gear_box_damage", actual: e[36] })
    } else if e[37] > 100 {
        Some(DecodeError::InvalidEnumValue { field: "engine_damage", actual: e[37] })
    } else if e[38] > 100 {
        Some(DecodeError::InvalidEnumValue { field: "engine_mguh_wear", actual: e[38] })
    } else if e[39] > 100 {
        Some(DecodeError::InvalidEnumValue { field: "engine_es_wear", actual: e[39] })
    } else if e[40] > 100 {
        Some(DecodeError::InvalidEnumValue { field: "engine_ce_wear", actual: e[40] })
    } else if e[41] > 100 {
        Some(DecodeError::InvalidEnumValue { field: "engine_ice_wear", actual: e[41] })
    } else if e[42] > 100 {
        Some(DecodeError::InvalidEnumValue { field: "engine_mguk_wear", actual: e[42] })
    } else if e[43] > 100 {
        Some(DecodeError::InvalidEnumValue { field: "engine_tc_wear", actual: e[43] })
    } else if e[44] > 1 {
        Some(DecodeError::InvalidEnumValue { field: "engine_blown", actual: e[44] })
    } else if e[45] > 1 {
        Some(DecodeError::InvalidEnumValue { field: "engine_seized", actual: e[45] })
    } else {
        None
    }
}

/// The F1 25 Car Damage sample stored in the entry `e`.
pub open spec fn damage_f1_25_sample(e: Seq<u8>) -> CarDamageSample {
    CarDamageSample {
        tyre_wear_percent: Corners { rear_left: le_real(e, 0), rear_right: le_real(e, 4), front_left: le_real(e, 8), front_right: le_real(e, 12) },
        tyre_damage_percent: Corners { rear_left: e[16], rear_right: e[17], front_left: e[18], front_right: e[19] },
        brake_damage_percent: Corners { rear_left: e[20], rear_right: e[21], front_left: e[22], front_right: e[23] },
        tyre_blister_percent: Some(Corners { rear_left: e[24], rear_right: e[25], front_left: e[26], front_right: e[27] }),
        front_left_wing_percent: e[28],
        front_right_wing_percent: e[29],
        rear_wing_percent: e[30],
        floor_percent: e[31],
        diffuser_percent: e[32],
        sidepod_percent: e[33],
        drs_fault: e[34] == 1,
        ers_fault: e[35] == 1,
        gearbox_percent: e[36],
        engine_percent: e[37],
        engine_mguh_wear_percent: e[38],
        engine_es_wear_percent: e[39],
        engine_ce_wear_percent: e[40],
        engine_ice_wear_percent: e[41],
        engine_mguk_wear_percent: e[42],
        engine_tc_wear_percent: e[43],
        engine_blown: e[44] == 1,
        engine_seized: e[45] == 1,
    }
}

fn decode_damage_f1_25(e: &[u8]) -> (r: Result<CarDamageSample, DecodeError>)
    requires
        e@.len() == 46,
    ensures
        r == (match damage_f1_25_error(e@) {
            Some(err) => Err(err),
            None => Ok(damage_f1_25_sample(e@)),
        }),
{
    if !is_percent(read_real(e, 0)) {
        return Err(DecodeError::InvalidNumericValue { field: "tyres_wear", value: read_real(e, 0) });
    }
    if !is_percent(read_real(e, 4)) {
        return Err(DecodeError::InvalidNumericValue { field: "tyres_wear", value: read_real(e, 4) });
    }
    if !is_percent(read_real(e, 8)) {
        return Err(DecodeError::InvalidNumericValue { field: "tyres_wear", value: read_real(e, 8) });
    }
    if !is_percent(read_real(e, 12)) {
        return Err(DecodeError::InvalidNumericValue { field: "tyres_wear", value: read_real(e, 12) });
    }
    if e[16] > 100 {
        return Err(DecodeError::InvalidEnumValue { field: "tyres_damage", actual: e[16] });
    }
    if e[17] > 100 {
        return Err(DecodeError::InvalidEnumValue { field: "tyres_damage", actual: e[17] });
    }
    if e[18] > 100 {
        return Err(DecodeError::InvalidEnumValue { field: "tyres_damage", actual: e[18] });
    }
    if e[19] > 100 {
        return Err(DecodeError::InvalidEnumValue { field: "tyres_damage", actual: e[19] });
    }
    if e[20] > 100 {
        return Err(DecodeError::InvalidEnumValue { field: "brakes_damage", actual: e[20] });
    }
    if e[21] > 100 {
        return Err(DecodeError::InvalidEnumValue { field: "brakes_damage", actual: e[21] });
    }
    if e[22] > 100 {
        return Err(DecodeError::InvalidEnumValue { field: "brakes_damage", actual: e[22] });
    }
    if e[23] > 100 {
        return Err(DecodeError::InvalidEnumValue { field: "brakes_damage", actual: e[23] });
    }
    if e[24] > 100 {
        return Err(DecodeError::InvalidEnumValue { field: "tyre_blisters", actual: e[24] });
    }
    if e[25] > 100 {
        return Err(DecodeError::InvalidEnumValue { field: "tyre_blisters", actual: e[25] });
    }
    if e[26] > 100 {
        return Err(DecodeError::InvalidEnumValue { field: "tyre_blisters", actual: e[26] });
    }
    if e[27] > 100 {
        return Err(DecodeError::InvalidEnumValue { field: "tyre_blisters", actual: e[27] });
    }
    if e[28] > 100 {
        return Err(DecodeError::InvalidEnumValue { field: "front_left_wing_damage", actual: e[28] });
    }
    if e[29] > 100 {
        return Err(DecodeError::InvalidEnumValue { field: "front_right_wing_damage", actual: e[29] });
    }
    if e[30] > 100 {
        return Err(DecodeError::InvalidEnumValue { field: "rear_wing_damage", actual: e[30] });
    }
    if e[31] > 100 {
        return Err(DecodeError::InvalidEnumValue { field: "floor_damage", actual: e[31] });
    }
    if e[32] > 100 {
        return Err(DecodeError::InvalidEnumValue { field: "diffuser_damage", actual: e[32] });
    }
    if e[33] > 100 {
        return Err(DecodeError::InvalidEnumValue { field: "sidepod_damage", actual: e[33] });
    }
    if e[34] > 1 {
        return Err(DecodeError::InvalidEnumValue { field: "drs_fault", actual: e[34] });
    }
    if e[35] > 1 {
        return Err(DecodeError::InvalidEnumValue { field: "ers_fault", actual: e[35] });
    }
    if e[36] > 100 {
        return Err(DecodeError::InvalidEnumValue { field: "gear_box_damage", actual: e[36] });
    }
    if e[37] > 100 {
        return Err(DecodeError::InvalidEnumValue { field: "engine_damage", actual: e[37] });
    }
    if e[38] > 100 {
        return Err(DecodeError::InvalidEnumValue { field: "engine_mguh_wear", actual: e[38] });
    }
    if e[39] > 100 {
        return Err(DecodeError::InvalidEnumValue { field: "engine_es_wear", actual: e[39] });
    }
    if e[40] > 100 {
        return Err(DecodeError::InvalidEnumValue { field: "engine_ce_wear", actual: e[40] });
    }
    if e[41] > 100 {
        return Err(DecodeError::InvalidEnumValue { field: "engine_ice_wear", actual: e[41] });
    }
    if e[42] > 100 {
        return Err(DecodeError::InvalidEnumValue { field: "engine_mguk_wear", actual: e[42] });
    }
    if e[43] > 100 {
        return Err(DecodeError::InvalidEnumValue { field: "engine_tc_wear", actual: e[43] });
    }
    if e[44] > 1 {
        return Err(DecodeError::InvalidEnumValue { field: "engine_blown", actual: e[44] });
    }
    if e[45] > 1 {
        return Err(DecodeError::InvalidEnumValue { field: "engine_seized", actual: e[45] });
    }
    Ok(CarDamageSample {
        tyre_wear_percent: Corners { rear_left: read_real(e, 0), rear_right: read_real(e, 4), front_left: read_real(e, 8), front_right: read_real(e, 12) },
        tyre_damage_percent: Corners { rear_left: e[16], rear_right: e[17], front_left: e[18], front_right: e[19] },
        brake_damage_percent: Corners { rear_left: e[20], rear_right: e[21], front_left: e[22], front_right: e[23] },
        tyre_blister_percent: Some(Corners { rear_left: e[24], rear_right: e[25], front_left: e[26], front_right: e[27] }),
        front_left_wing_percent: e[28],
        front_right_wing_percent: e[29],
        rear_wing_percent: e[30],
        floor_percent: e[31],
        diffuser_percent: e[32],
        sidepod_percent: e[33],
        drs_fault: e[34] == 1,
        ers_fault: e[35] == 1,
        gearbox_percent: e[36],
        engine_percent: e[37],
        engine_mguh_wear_percent: e[38],
        engine_es_wear_percent: e[39],
        engine_ce_wear_percent: e[40],
        engine_ice_wear_percent: e[41],
        engine_mguk_wear_percent: e[42],
        engine_tc_wear_percent: e[43],
        engine_blown: e[44] == 1,
        engine_seized: e[45] == 1,
    })
}

/// The first check that the Car Telemetry 2 entry `e` fails, if any.
pub open spec fn telemetry2_error(e: Seq<u8>) -> Option<DecodeError> {
    if e[0] > 1 {
        Some(DecodeError::InvalidEnumValue { field: "active_aero_mode", actual: e[0] })
    } else if e[1] > 1 {
        Some(DecodeError::InvalidEnumValue { field: "active_aero_available", actual: e[1] })
    } else if e[4] > 1 {
        Some(DecodeError::InvalidEnumValue { field: "overtake_available", actual: e[4] })
    } else if e[5] > 1 {
        Some(DecodeError::InvalidEnumValue { field: "overtake_active", actual: e[5] })
    } else if e[8] > 1 {
        Some(DecodeError::InvalidEnumValue { field: "2026_regulations", actual: e[8] })
    } else if e[9] > 1 {
        Some(DecodeError::InvalidEnumValue { field: "driving_wrong_way", actual: e[9] })
    } else {
        None
    }
}

/// The Car Telemetry 2 sample stored in the entry `e`.
pub open spec fn telemetry2_sample(e: Seq<u8>) -> CarTelemetry2Sample {
    CarTelemetry2Sample {
        active_aero_mode: e[0],
        active_aero_available: e[1] == 1,
        active_aero_activation_distance_m: le_u16(e, 2),
        overtake_available: e[4] == 1,
        overtake_active: e[5] == 1,
        overtake_activation_distance_m: le_u16(e, 6),
        regulations_2026: e[8] == 1,
        driving_wrong_way: e[9] == 1,
    }
}

fn decode_telemetry2(e: &[u8]) -> (r: Result<CarTelemetry2Sample, DecodeError>)
    requires
        e@.len() == 10,
    ensures
        r == (match telemetry2_error(e@) {
            Some(err) => Err(err),
            None => Ok(telemetry2_sample(e@)),
        }),
{
    if e[0] > 1 {
        return Err(DecodeError::InvalidEnumValue { field: "active_aero_mode", actual: e[0] });
    }
    if e[1] > 1 {
        return Err(DecodeError::InvalidEnumValue { field: "active_aero_available", actual: e[1] });
    }
    if e[4] > 1 {
        return Err(DecodeError::InvalidEnumValue { field: "overtake_available", actual: e[4] });
    }
    if e[5] > 1 {
        return Err(DecodeError::InvalidEnumValue { field: "overtake_active", actual: e[5] });
    }
    if e[8] > 1 {
        return Err(DecodeError::InvalidEnumValue { field: "2026_regulations", actual: e[8] });
    }
    if e[9] > 1 {
        return Err(DecodeError::InvalidEnumValue { field: "driving_wrong_way", actual: e[9] });
    }
    Ok(CarTelemetry2Sample {
        active_aero_mode: e[0],
        active_aero_available: e[1] == 1,
        active_aero_activation_distance_m: read_u16(e, 2),
        overtake_available: e[4] == 1,
        overtake_active: e[5] == 1,
        overtake_activation_distance_m: read_u16(e, 6),
        regulations_2026: e[8] == 1,
        driving_wrong_way: e[9] == 1,
    })
}

/// Whether `r` is an error.
pub open spec fn failed<T>(r: Result<T, DecodeError>) -> bool {
    r is Err
}

/// What decoding the player's Car Telemetry entry of a datagram of `len`
/// bytes gives, its header `h` and payload `payload` given.
pub open spec fn telemetry_decoded(h: PacketHeader, payload: Seq<u8>, len: nat, layout: F1Layout) -> Result<CarTelemetrySample, DecodeError> {
    let n = layout.car_telemetry_data_len as nat;
    match packet_check(h, len, CAR_TELEMETRY_PACKET_ID, layout.car_telemetry_packet_len as nat) {
        Err(e) => Err(e),
        Ok(_) => match entry_check(h, payload.len(), layout.car_count as nat, n) {
            Err(e) => Err(e),
            Ok(_) => {
                let e = entry_of(h, payload, n);
                if n == F1_25_2026_CAR_TELEMETRY_DATA_LEN {
                    match telemetry_season_error(e) {
                        Some(err) => Err(err),
                        None => Ok(telemetry_season_sample(e)),
                    }
                } else {
                    match telemetry_legacy_error(e) {
                        Some(err) => Err(err),
                        None => Ok(telemetry_legacy_sample(e)),
                    }
                }
            },
        },
    }
}

/// Decodes the player's Car Telemetry entry.
pub fn decode_player_car_telemetry(header: &PacketHeader, payload: &[u8], datagram_len: usize, layout: F1Layout) -> (r: Result<CarTelemetrySample, DecodeError>)
    requires
        official_layout(layout),
    ensures
        r == telemetry_decoded(*header, payload@, datagram_len as nat, layout),
{
    validate_packet(header, datagram_len, CAR_TELEMETRY_PACKET_ID, layout.car_telemetry_packet_len)?;
    let entry = player_entry(header, payload, layout.car_count, layout.car_telemetry_data_len)?;
    if layout.car_telemetry_data_len == F1_25_2026_CAR_TELEMETRY_DATA_LEN {
        decode_telemetry_season(entry)
    } else {
        decode_telemetry_legacy(entry)
    }
}

/// What decoding the player's Car Status entry gives.
pub open spec fn status_decoded(h: PacketHeader, payload: Seq<u8>, len: nat, layout: F1Layout) -> Result<CarStatusSample, DecodeError> {
    let n = layout.car_status_data_len as nat;
    match packet_check(h, len, CAR_STATUS_PACKET_ID, layout.car_status_packet_len as nat) {
        Err(e) => Err(e),
        Ok(_) => match entry_check(h, payload.len(), layout.car_count as nat, n) {
            Err(e) => Err(e),
            Ok(_) => {
                let e = entry_of(h, payload, n);
                if n == F1_25_2026_CAR_STATUS_DATA_LEN {
                    match status_season_error(e) {
                        Some(err) => Err(err),
                        None => Ok(status_season_sample(e)),
                    }
                } else {
                    match status_legacy_error(e) {
                        Some(err) => Err(err),
                        None => Ok(status_legacy_sample(e)),
                    }
                }
            },
        },
    }
}

/// Decodes the player's Car Status entry.
pub fn decode_player_car_status(header: &PacketHeader, payload: &[u8], datagram_len: usize, layout: F1Layout) -> (r: Result<CarStatusSample, DecodeError>)
    requires
        official_layout(layout),
    ensures
        r == status_decoded(*header, payload@, datagram_len as nat, layout),
{
    validate_packet(header, datagram_len, CAR_STATUS_PACKET_ID, layout.car_status_packet_len)?;
    let entry = player_entry(header, payload, layout.car_count, layout.car_status_data_len)?;
    if layout.car_status_data_len == F1_25_2026_CAR_STATUS_DATA_LEN {
        decode_status_season(entry)
    } else {
        decode_status_legacy(entry)
    }
}

/// What decoding the player's Car Damage entry gives.
pub open spec fn damage_decoded(h: PacketHeader, payload: Seq<u8>, len: nat, layout: F1Layout) -> Result<CarDamageSample, DecodeError> {
    let n = layout.car_damage_data_len as nat;
    match packet_check(h, len, CAR_DAMAGE_PACKET_ID, layout.car_damage_packet_len as nat) {
        Err(e) => Err(e),
        Ok(_) => match entry_check(h, payload.len(), layout.car_count as nat, n) {
            Err(e) => Err(e),
            Ok(_) => {
                let e = entry_of(h, payload, n);
                if n == F1_25_CAR_DAMAGE_DATA_LEN {
                    match damage_f1_25_error(e) {
                        Some(err) => Err(err),
                        None => Ok(damage_f1_25_sample(e)),
                    }
                } else {
                    match damage_f1_24_error(e) {
                        Some(err) => Err(err),
                        None => Ok(damage_f1_24_sample(e)),
                    }
                }
            },
        },
    }
}

/// Decodes the player's Car Damage entry.
pub fn decode_player_car_damage(header: &PacketHeader, payload: &[u8], datagram_len: usize, layout: F1Layout) -> (r: Result<CarDamageSample, DecodeError>)
    requires
        official_layout(layout),
    ensures
        r == damage_decoded(*header, payload@, datagram_len as nat, layout),
{
    validate_packet(header, datagram_len, CAR_DAMAGE_PACKET_ID, layout.car_damage_packet_len)?;
    let entry = player_entry(header, payload, layout.car_count, layout.car_damage_data_len)?;
    if layout.car_damage_data_len == F1_25_CAR_DAMAGE_DATA_LEN {
        decode_damage_f1_25(entry)
    } else {
        decode_damage_f1_24(entry)
    }
}

/// What decoding the player's Car Telemetry 2 entry gives; formats without
/// that packet report an unexpected packet id.
pub open spec fn telemetry2_decoded(h: PacketHeader, payload: Seq<u8>, len: nat, layout: F1Layout) -> Result<CarTelemetry2Sample, DecodeError> {
    match layout.car_telemetry2 {
        None => Err(DecodeError::UnexpectedPacketId { expected: CAR_TELEMETRY2_PACKET_ID, actual: h.packet_id }),
        Some((n, packet_len)) => match packet_check(h, len, CAR_TELEMETRY2_PACKET_ID, packet_len as nat) {
            Err(e) => Err(e),
            Ok(_) => match entry_check(h, payload.len(), layout.car_count as nat, n as nat) {
                Err(e) => Err(e),
                Ok(_) => {
                    let e = entry_of(h, payload, n as nat);
                    match telemetry2_error(e) {
                        Some(err) => Err(err),
                        None => Ok(telemetry2_sample(e)),
                    }
                },
            },
        },
    }
}

/// Decodes the player's Car Telemetry 2 entry.
pub fn decode_player_car_telemetry2(header: &PacketHeader, payload: &[u8], datagram_len: usize, layout: F1Layout) -> (r: Result<CarTelemetry2Sample, DecodeError>)
    requires
        official_layout(layout),
    ensures
        r == telemetry2_decoded(*header, payload@, datagram_len as nat, layout),
{
    let (entry_len, packet_len) = match layout.car_telemetry2 {
        None => {
            return Err(DecodeError::UnexpectedPacketId { expected: CAR_TELEMETRY2_PACKET_ID, actual: header.packet_id });
        },
        Some(lens) => lens,
    };
    validate_packet(header, datagram_len, CAR_TELEMETRY2_PACKET_ID, packet_len)?;
    let entry = player_entry(header, payload, layout.car_count, entry_len)?;
    decode_telemetry2(entry)
}

/// The bit pattern of the quiet NaN that reports a non-finite lap value.
pub const NAN_BITS: u32 = 0x7FC0_0000;

/// What decoding the player's Lap Data entry gives.
pub open spec fn lap_decoded(h: PacketHeader, payload: Seq<u8>, len: nat, layout: F1Layout) -> Result<LapSample, DecodeError> {
    match packet_check(h, len, LAP_DATA_PACKET_ID, layout.lap_packet_len as nat) {
        Err(e) => Err(e),
        Ok(_) => match entry_check(h, payload.len(), layout.car_count as nat, LAP_DATA_LEN as nat) {
            Err(e) => Err(e),
            Ok(_) => {
                let e = entry_of(h, payload, LAP_DATA_LEN as nat);
                if !finite_bits(le_u32(e, 20)) || !finite_bits(le_u32(e, 24)) || !finite_bits(le_u32(e, 28))
                    || !finite_bits(le_u32(e, 52)) {
                    Err(DecodeError::InvalidNumericValue { field: "lap_data", value: Real { bits: NAN_BITS } })
                } else {
                    Ok(lap_sample(e))
                }
            },
        },
    }
}

/// The Lap Data sample stored in the entry `e`.
pub open spec fn lap_sample(e: Seq<u8>) -> LapSample {
    LapSample {
        last_lap_time_ms: le_u32(e, 0),
        current_lap_time_ms: le_u32(e, 4),
        sector1_time_ms_part: le_u16(e, 8),
        sector1_time_minutes_part: e[10],
        sector2_time_ms_part: le_u16(e, 11),
        sector2_time_minutes_part: e[13],
        delta_to_car_in_front_ms_part: le_u16(e, 14),
        delta_to_car_in_front_minutes_part: e[16],
        delta_to_race_leader_ms_part: le_u16(e, 17),
        delta_to_race_leader_minutes_part: e[19],
        lap_distance_m: le_real(e, 20),
        total_distance_m: le_real(e, 24),
        safety_car_delta_s: le_real(e, 28),
        car_position: e[32],
        current_lap_number: e[33],
        pit_status: e[34],
        pit_stops: e[35],
        sector: e[36],
        current_lap_invalid: e[37],
        penalties_seconds: e[38],
        warnings: e[39],
        corner_cutting_warnings: e[40],
        unserved_drive_through_penalties: e[41],
        unserved_stop_go_penalties: e[42],
        grid_position: e[43],
        driver_status: e[44],
        result_status: e[45],
        pit_lane_timer_active: e[46],
        pit_lane_time_ms: le_u16(e, 47),
        pit_stop_time_ms: le_u16(e, 49),
        pit_stop_should_serve_penalty: e[51],
    }
}

/// Decodes the player's Lap Data entry.
pub fn decode_player_lap(header: &PacketHeader, payload: &[u8], datagram_len: usize, layout: F1Layout) -> (r: Result<LapSample, DecodeError>)
    requires
        official_layout(layout),
    ensures
        r == lap_decoded(*header, payload@, datagram_len as nat, layout),
{
    validate_packet(header, datagram_len, LAP_DATA_PACKET_ID, layout.lap_packet_len)?;
    let e = player_entry(header, payload, layout.car_count, LAP_DATA_LEN)?;
    let sample = LapSample {
        last_lap_time_ms: read_u32(e, 0),
        current_lap_time_ms: read_u32(e, 4),
        sector1_time_ms_part: read_u16(e, 8),
        sector1_time_minutes_part: e[10],
        sector2_time_ms_part: read_u16(e, 11),
        sector2_time_minutes_part: e[13],
        delta_to_car_in_front_ms_part: read_u16(e, 14),
        delta_to_car_in_front_minutes_part: e[16],
        delta_to_race_leader_ms_part: read_u16(e, 17),
        delta_to_race_leader_minutes_part: e[19],
        lap_distance_m: read_real(e, 20),
        total_distance_m: read_real(e, 24),
        safety_car_delta_s: read_real(e, 28),
        car_position: e[32],
        current_lap_number: e[33],
        pit_status: e[34],
        pit_stops: e[35],
        sector: e[36],
        current_lap_invalid: e[37],
        penalties_seconds: e[38],
        warnings: e[39],
        corner_cutting_warnings: e[40],
        unserved_drive_through_penalties: e[41],
        unserved_stop_go_penalties: e[42],
        grid_position: e[43],
        driver_status: e[44],
        result_status: e[45],
        pit_lane_timer_active: e[46],
        pit_lane_time_ms: read_u16(e, 47),
        pit_stop_time_ms: read_u16(e, 49),
        pit_stop_should_serve_penalty: e[51],
    };
    if !is_finite(sample.lap_distance_m) || !is_finite(sample.total_distance_m) || !is_finite(sample.safety_car_delta_s)
        || !is_finite(read_real(e, 52)) {
        return Err(DecodeError::InvalidNumericValue { field: "lap_data", value: Real { bits: NAN_BITS } });
    }
    Ok(sample)
}

/// The Session sample stored in the payload `p`.
pub open spec fn session_sample(p: Seq<u8>) -> SessionSample {
    SessionSample {
        weather: p[0],
        track_temperature_c: le_i8(p, 1),
        air_temperature_c: le_i8(p, 2),
        total_laps: p[3],
        track_length_m: le_u16(p, 4),
        session_type: p[6],
        track_id: le_i8(p, 7),
        session_time_left_s: le_u16(p, 9),
        pit_speed_limit_kph: p[13],
        safety_car_status: p[124],
    }
}

/// What decoding a Session packet gives.
pub open spec fn session_decoded(h: PacketHeader, payload: Seq<u8>, len: nat, layout: F1Layout) -> Result<SessionSample, DecodeError> {
    match packet_check(h, len, SESSION_PACKET_ID, layout.session_packet_len as nat) {
        Err(e) => Err(e),
        Ok(_) => if payload[18] > 21 {
            Err(DecodeError::InvalidEnumValue { field: "num_marshal_zones", actual: payload[18] })
        } else {
            Ok(session_sample(payload))
        },
    }
}

/// Decodes a Session packet.
pub fn decode_session(header: &PacketHeader, payload: &[u8], datagram_len: usize, layout: F1Layout) -> (r: Result<SessionSample, DecodeError>)
    requires
        official_layout(layout),
        payload@.len() + PACKET_HEADER_LEN == datagram_len,
    ensures
        r == session_decoded(*header, payload@, datagram_len as nat, layout),
{
    validate_packet(header, datagram_len, SESSION_PACKET_ID, layout.session_packet_len)?;
    let p = payload;
    if p[18] > 21 {
        return Err(DecodeError::InvalidEnumValue { field: "num_marshal_zones", actual: p[18] });
    }
    Ok(SessionSample {
        weather: p[0],
        track_temperature_c: read_i8(p, 1),
        air_temperature_c: read_i8(p, 2),
        total_laps: p[3],
        track_length_m: read_u16(p, 4),
        session_type: p[6],
        track_id: read_i8(p, 7),
        session_time_left_s: read_u16(p, 9),
        pit_speed_limit_kph: p[13],
        safety_car_status: p[124],
    })
}

/// What decoding an Event packet gives.
pub open spec fn event_decoded(h: PacketHeader, payload: Seq<u8>, len: nat) -> Result<EventSample, DecodeError> {
    match packet_check(h, len, EVENT_PACKET_ID, EVENT_PACKET_LEN as nat) {
        Err(e) => Err(e),
        Ok(_) => Ok(EventSample {
            code: [payload[0], payload[1], payload[2], payload[3]],
            details: [payload[4], payload[5], payload[6], payload[7], payload[8], payload[9], payload[10], payload[11], payload[12], payload[13], payload[14], payload[15]],
        }),
    }
}

/// Decodes an Event packet.
pub fn decode_event(header: &PacketHeader, payload: &[u8], datagram_len: usize) -> (r: Result<EventSample, DecodeError>)
    requires
        payload@.len() + PACKET_HEADER_LEN == datagram_len,
    ensures
        r == event_decoded(*header, payload@, datagram_len as nat),
{
    validate_packet(header, datagram_len, EVENT_PACKET_ID, EVENT_PACKET_LEN)?;
    let p = payload;
    Ok(EventSample {
        code: [p[0], p[1], p[2], p[3]],
        details: [p[4], p[5], p[6], p[7], p[8], p[9], p[10], p[11], p[12], p[13], p[14], p[15]],
    })
}

} // verus!
