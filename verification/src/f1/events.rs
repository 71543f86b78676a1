//! Classification of F1 Event packets.

use vstd::prelude::*;

use super::bytes::{finite_bits, is_finite, le_real, le_u32, read_real, read_u32};
use super::error::DecodeError;
use super::mapping::{bool_of, bool_value};
use super::packets::EventSample;
use crate::telemetry::model::Real;

verus! {

/// A decoded F1 event with its typed details.
///
/// `is_player` flags say whether the vehicle index named is the player's.
#[derive(Debug, Clone, Copy, PartialEq, Eq)]
pub enum F1EventKind {
    /// `SSTA`: the session started.
    SessionStarted,
    /// `SEND`: the session ended.
    SessionEnded,
    /// `FTLP`: a fastest lap, its time in seconds.
    FastestLap { vehicle: u8, is_player: bool, lap_time_s: Real },
    /// `RTMT`: a driver retired.
    Retirement { vehicle: u8, is_player: bool, reason: u8 },
    /// `DRSE`: DRS was enabled.
    DrsEnabled,
    /// `DRSD`: DRS was disabled.
    DrsDisabled { reason: u8 },
    /// `TMPT`: the team mate is in the pits.
    TeamMateInPits { vehicle: u8, is_player: bool },
    /// `CHQF`: the chequered flag was waved.
    ChequeredFlag,
    /// `RCWN`: the race winner was announced.
    RaceWinner { vehicle: u8, is_player: bool },
    /// `PENA`: a penalty was issued.
    Penalty {
        penalty_type: u8,
        infringement_type: u8,
        vehicle: u8,
        is_player: bool,
        other_vehicle: u8,
        time_seconds: u8,
        lap_number: u8,
        places_gained: u8,
    },
    /// `SPTP`: a speed trap was triggered, speeds in kilometres per hour.
    SpeedTrap {
        vehicle: u8,
        is_player: bool,
        speed_kph: Real,
        overall_fastest: bool,
        driver_fastest: bool,
        fastest_vehicle: u8,
        fastest_speed_kph: Real,
    },
    /// `STLG`: the number of start lights changed.
    StartLights { count: u8 },
    /// `LGOT`: the start lights went out.
    LightsOut,
    /// `DTSV`: a drive-through penalty was served.
    DriveThroughServed { vehicle: u8, is_player: bool },
    /// `SGSV`: a stop-go penalty was served, the stop in seconds.
    StopGoServed { vehicle: u8, is_player: bool, stop_time_s: Real },
    /// `FLBK`: a flashback was activated, the session time in seconds.
    Flashback { frame_identifier: u32, session_time_s: Real },
    /// `BUTN`: the button status changed.
    Buttons { status: u32 },
    /// `RDFL`: a red flag was shown.
    RedFlag,
    /// `OVTK`: an overtake happened.
    Overtake { overtaking: u8, overtaken: u8, player_involved: bool },
    /// `SCAR`: the safety car changed.
    SafetyCar { safety_car_type: u8, event_type: u8 },
    /// `COLL`: a collision occurred.
    Collision { first: u8, second: u8, severity: u8, player_involved: bool },
    /// Any other code.
    Other { code: [u8; 4] },
}

/// Whether the four-byte `code` spells `a b c d`.
pub open spec fn spells(code: Seq<u8>, a: u8, b: u8, c: u8, d: u8) -> bool {
    code.len() == 4 && code[0] == a && code[1] == b && code[2] == c && code[3] == d
}

fn is_code(code: &[u8; 4], a: u8, b: u8, c: u8, d: u8) -> (r: bool)
    ensures
        r == spells(code@, a, b, c, d),
{
    code[0] == a && code[1] == b && code[2] == c && code[3] == d
}

/// What classifying an event with detail bytes `x`, for the player's vehicle
/// index `p`, gives.
pub open spec fn event_kind_of(code: Seq<u8>, x: Seq<u8>, p: u8) -> Result<F1EventKind, DecodeError> {
    if spells(code, 0x53, 0x53, 0x54, 0x41) {
        Ok(F1EventKind::SessionStarted)
    } else if spells(code, 0x53, 0x45, 0x4e, 0x44) {
        Ok(F1EventKind::SessionEnded)
    } else if spells(code, 0x46, 0x54, 0x4c, 0x50) {
        if !finite_bits(le_u32(x, 1)) {
            Err(DecodeError::InvalidNumericValue { field: "fastest_lap_time", value: le_real(x, 1) })
        } else {
            Ok(F1EventKind::FastestLap { vehicle: x[0], is_player: x[0] == p, lap_time_s: le_real(x, 1) })
        }
    } else if spells(code, 0x52, 0x54, 0x4d, 0x54) {
        Ok(F1EventKind::Retirement { vehicle: x[0], is_player: x[0] == p, reason: x[1] })
    } else if spells(code, 0x44, 0x52, 0x53, 0x45) {
        Ok(F1EventKind::DrsEnabled)
    } else if spells(code, 0x44, 0x52, 0x53, 0x44) {
        Ok(F1EventKind::DrsDisabled { reason: x[0] })
    } else if spells(code, 0x54, 0x4d, 0x50, 0x54) {
        Ok(F1EventKind::TeamMateInPits { vehicle: x[0], is_player: x[0] == p })
    } else if spells(code, 0x43, 0x48, 0x51, 0x46) {
        Ok(F1EventKind::ChequeredFlag)
    } else if spells(code, 0x52, 0x43, 0x57, 0x4e) {
        Ok(F1EventKind::RaceWinner { vehicle: x[0], is_player: x[0] == p })
    } else if spells(code, 0x50, 0x45, 0x4e, 0x41) {
        Ok(F1EventKind::Penalty {
            penalty_type: x[0],
            infringement_type: x[1],
            vehicle: x[2],
            is_player: x[2] == p,
            other_vehicle: x[3],
            time_seconds: x[4],
            lap_number: x[5],
            places_gained: x[6],
        })
    } else if spells(code, 0x53, 0x50, 0x54, 0x50) {
        if !finite_bits(le_u32(x, 1)) {
            Err(DecodeError::InvalidNumericValue { field: "speed_trap_speed", value: le_real(x, 1) })
        } else if bool_of("overall_fastest", x[5]) is Err {
            Err(bool_of("overall_fastest", x[5])->Err_0)
        } else if bool_of("driver_fastest", x[6]) is Err {
            Err(bool_of("driver_fastest", x[6])->Err_0)
        } else if !finite_bits(le_u32(x, 8)) {
            Err(DecodeError::InvalidNumericValue { field: "fastest_speed", value: le_real(x, 8) })
        } else {
            Ok(F1EventKind::SpeedTrap {
                vehicle: x[0],
                is_player: x[0] == p,
                speed_kph: le_real(x, 1),
                overall_fastest: x[5] == 1,
                driver_fastest: x[6] == 1,
                fastest_vehicle: x[7],
                fastest_speed_kph: le_real(x, 8),
            })
        }
    } else if spells(code, 0x53, 0x54, 0x4c, 0x47) {
        Ok(F1EventKind::StartLights { count: x[0] })
    } else if spells(code, 0x4c, 0x47, 0x4f, 0x54) {
        Ok(F1EventKind::LightsOut)
    } else if spells(code, 0x44, 0x54, 0x53, 0x56) {
        Ok(F1EventKind::DriveThroughServed { vehicle: x[0], is_player: x[0] == p })
    } else if spells(code, 0x53, 0x47, 0x53, 0x56) {
        if !finite_bits(le_u32(x, 1)) {
            Err(DecodeError::InvalidNumericValue { field: "stop_go_time", value: le_real(x, 1) })
        } else {
            Ok(F1EventKind::StopGoServed { vehicle: x[0], is_player: x[0] == p, stop_time_s: le_real(x, 1) })
        }
    } else if spells(code, 0x46, 0x4c, 0x42, 0x4b) {
        if !finite_bits(le_u32(x, 4)) {
            Err(DecodeError::InvalidNumericValue { field: "flashback_session_time", value: le_real(x, 4) })
        } else {
            Ok(F1EventKind::Flashback { frame_identifier: le_u32(x, 0), session_time_s: le_real(x, 4) })
        }
    } else if spells(code, 0x42, 0x55, 0x54, 0x4e) {
        Ok(F1EventKind::Buttons { status: le_u32(x, 0) })
    } else if spells(code, 0x52, 0x44, 0x46, 0x4c) {
        Ok(F1EventKind::RedFlag)
    } else if spells(code, 0x4f, 0x56, 0x54, 0x4b) {
        Ok(F1EventKind::Overtake { overtaking: x[0], overtaken: x[1], player_involved: x[0] == p || x[1] == p })
    } else if spells(code, 0x53, 0x43, 0x41, 0x52) {
        Ok(F1EventKind::SafetyCar { safety_car_type: x[0], event_type: x[1] })
    } else if spells(code, 0x43, 0x4f, 0x4c, 0x4c) {
        Ok(F1EventKind::Collision { first: x[0], second: x[1], severity: x[2], player_involved: x[0] == p || x[1] == p })
    } else {
        Ok(F1EventKind::Other { code: [code[0], code[1], code[2], code[3]] })
    }
}

/// Classifies an event and reads its details; the player is `player`.
pub fn decode_event_kind(sample: &EventSample, player: u8) -> (r: Result<F1EventKind, DecodeError>)
    ensures
        r == event_kind_of(sample.code@, sample.details@, player),
{
    let code = &sample.code;
    let x: &[u8] = sample.details.as_slice();
    assert(x@ == sample.details@);
    if is_code(code, 0x53, 0x53, 0x54, 0x41) {
        Ok(F1EventKind::SessionStarted)
    } else if is_code(code, 0x53, 0x45, 0x4e, 0x44) {
        Ok(F1EventKind::SessionEnded)
    } else if is_code(code, 0x46, 0x54, 0x4c, 0x50) {
        let lap_time = read_real(x, 1);
        if !is_finite(lap_time) {
            return Err(DecodeError::InvalidNumericValue { field: "fastest_lap_time", value: lap_time });
        }
        Ok(F1EventKind::FastestLap { vehicle: x[0], is_player: x[0] == player, lap_time_s: lap_time })
    } else if is_code(code, 0x52, 0x54, 0x4d, 0x54) {
        Ok(F1EventKind::Retirement { vehicle: x[0], is_player: x[0] == player, reason: x[1] })
    } else if is_code(code, 0x44, 0x52, 0x53, 0x45) {
        Ok(F1EventKind::DrsEnabled)
    } else if is_code(code, 0x44, 0x52, 0x53, 0x44) {
        Ok(F1EventKind::DrsDisabled { reason: x[0] })
    } else if is_code(code, 0x54, 0x4d, 0x50, 0x54) {
        Ok(F1EventKind::TeamMateInPits { vehicle: x[0], is_player: x[0] == player })
    } else if is_code(code, 0x43, 0x48, 0x51, 0x46) {
        Ok(F1EventKind::ChequeredFlag)
    } else if is_code(code, 0x52, 0x43, 0x57, 0x4e) {
        Ok(F1EventKind::RaceWinner { vehicle: x[0], is_player: x[0] == player })
    } else if is_code(code, 0x50, 0x45, 0x4e, 0x41) {
        Ok(F1EventKind::Penalty {
            penalty_type: x[0],
            infringement_type: x[1],
            vehicle: x[2],
            is_player: x[2] == player,
            other_vehicle: x[3],
            time_seconds: x[4],
            lap_number: x[5],
            places_gained: x[6],
        })
    } else if is_code(code, 0x53, 0x50, 0x54, 0x50) {
        let speed = read_real(x, 1);
        if !is_finite(speed) {
            return Err(DecodeError::InvalidNumericValue { field: "speed_trap_speed", value: speed });
        }
        let overall_fastest = bool_value("overall_fastest", x[5])?;
        let driver_fastest = bool_value("driver_fastest", x[6])?;
        let fastest_speed = read_real(x, 8);
        if !is_finite(fastest_speed) {
            return Err(DecodeError::InvalidNumericValue { field: "fastest_speed", value: fastest_speed });
        }
        Ok(F1EventKind::SpeedTrap {
            vehicle: x[0],
            is_player: x[0] == player,
            speed_kph: speed,
            overall_fastest,
            driver_fastest,
            fastest_vehicle: x[7],
            fastest_speed_kph: fastest_speed,
        })
    } else if is_code(code, 0x53, 0x54, 0x4c, 0x47) {
        Ok(F1EventKind::StartLights { count: x[0] })
    } else if is_code(code, 0x4c, 0x47, 0x4f, 0x54) {
        Ok(F1EventKind::LightsOut)
    } else if is_code(code, 0x44, 0x54, 0x53, 0x56) {
        Ok(F1EventKind::DriveThroughServed { vehicle: x[0], is_player: x[0] == player })
    } else if is_code(code, 0x53, 0x47, 0x53, 0x56) {
        let stop_time = read_real(x, 1);
        if !is_finite(stop_time) {
            return Err(DecodeError::InvalidNumericValue { field: "stop_go_time", value: stop_time });
        }
        Ok(F1EventKind::StopGoServed { vehicle: x[0], is_player: x[0] == player, stop_time_s: stop_time })
    } else if is_code(code, 0x46, 0x4c, 0x42, 0x4b) {
        let session_time = read_real(x, 4);
        if !is_finite(session_time) {
            return Err(DecodeError::InvalidNumericValue { field: "flashback_session_time", value: session_time });
        }
        Ok(F1EventKind::Flashback { frame_identifier: read_u32(x, 0), session_time_s: session_time })
    } else if is_code(code, 0x42, 0x55, 0x54, 0x4e) {
        Ok(F1EventKind::Buttons { status: read_u32(x, 0) })
    } else if is_code(code, 0x52, 0x44, 0x46, 0x4c) {
        Ok(F1EventKind::RedFlag)
    } else if is_code(code, 0x4f, 0x56, 0x54, 0x4b) {
        Ok(F1EventKind::Overtake { overtaking: x[0], overtaken: x[1], player_involved: x[0] == player || x[1] == player })
    } else if is_code(code, 0x53, 0x43, 0x41, 0x52) {
        Ok(F1EventKind::SafetyCar { safety_car_type: x[0], event_type: x[1] })
    } else if is_code(code, 0x43, 0x4f, 0x4c, 0x4c) {
        Ok(F1EventKind::Collision { first: x[0], second: x[1], severity: x[2], player_involved: x[0] == player || x[1] == player })
    } else {
        Ok(F1EventKind::Other { code: [code[0], code[1], code[2], code[3]] })
    }
}

/// The stable dotted name of an event.
pub open spec fn event_name(kind: F1EventKind) -> Seq<char> {
    match kind {
        F1EventKind::SessionStarted => "session.started"@,
        F1EventKind::SessionEnded => "session.ended"@,
        F1EventKind::FastestLap { .. } => "lap.fastest"@,
        F1EventKind::Retirement { .. } => "driver.retired"@,
        F1EventKind::DrsEnabled => "drs.enabled"@,
        F1EventKind::DrsDisabled { .. } => "drs.disabled"@,
        F1EventKind::TeamMateInPits { .. } => "teammate.pits"@,
        F1EventKind::ChequeredFlag => "session.chequered_flag"@,
        F1EventKind::RaceWinner { .. } => "race.winner"@,
        F1EventKind::Penalty { .. } => "penalty.issued"@,
        F1EventKind::SpeedTrap { .. } => "speed_trap.triggered"@,
        F1EventKind::StartLights { .. } => "start_lights.changed"@,
        F1EventKind::LightsOut => "start_lights.out"@,
        F1EventKind::DriveThroughServed { .. } => "penalty.drive_through_served"@,
        F1EventKind::StopGoServed { .. } => "penalty.stop_go_served"@,
        F1EventKind::Flashback { .. } => "flashback.activated"@,
        F1EventKind::Buttons { .. } => "input.buttons_changed"@,
        F1EventKind::RedFlag => "race.red_flag"@,
        F1EventKind::Overtake { .. } => "race.overtake"@,
        F1EventKind::SafetyCar { .. } => "safety_car.changed"@,
        F1EventKind::Collision { .. } => "collision.occurred"@,
        F1EventKind::Other { .. } => "f1.event"@,
    }
}

impl F1EventKind {
    /// Returns the stable dotted name of the event.
    pub fn name(&self) -> (s: &'static str)
        ensures
            s@ == event_name(*self),
    {
        match self {
            F1EventKind::SessionStarted => "session.started",
            F1EventKind::SessionEnded => "session.ended",
            F1EventKind::FastestLap { .. } => "lap.fastest",
            F1EventKind::Retirement { .. } => "driver.retired",
            F1EventKind::DrsEnabled => "drs.enabled",
            F1EventKind::DrsDisabled { .. } => "drs.disabled",
            F1EventKind::TeamMateInPits { .. } => "teammate.pits",
            F1EventKind::ChequeredFlag => "session.chequered_flag",
            F1EventKind::RaceWinner { .. } => "race.winner",
            F1EventKind::Penalty { .. } => "penalty.issued",
            F1EventKind::SpeedTrap { .. } => "speed_trap.triggered",
            F1EventKind::StartLights { .. } => "start_lights.changed",
            F1EventKind::LightsOut => "start_lights.out",
            F1EventKind::DriveThroughServed { .. } => "penalty.drive_through_served",
            F1EventKind::StopGoServed { .. } => "penalty.stop_go_served",
            F1EventKind::Flashback { .. } => "flashback.activated",
            F1EventKind::Buttons { .. } => "input.buttons_changed",
            F1EventKind::RedFlag => "race.red_flag",
            F1EventKind::Overtake { .. } => "race.overtake",
            F1EventKind::SafetyCar { .. } => "safety_car.changed",
            F1EventKind::Collision { .. } => "collision.occurred",
            F1EventKind::Other { .. } => "f1.event",
        }
    }
}

} // verus!
