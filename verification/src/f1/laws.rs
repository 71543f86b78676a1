//! The F1 UDP code tables, stated from the codes' side: each decoded value
//! carries the code that the game's UDP specification gives it.

use vstd::prelude::*;

use super::mapping::{
    blister_at, damage_corner, driver_status_of, gear_maps, lap_state_of, pit_status_of, telemetry_corner, race_flag_of, result_status_of, safety_car_of, session_type_name,
    weather_of,
};
use super::adapter::{adapter_id_of, f1_capabilities, layout_for, F1Game};
use super::events::{event_kind_of, F1EventKind};
use super::packets::{Corners, LapSample};
use crate::telemetry::model::{
    DriverStatus, Gear, Normalized, PitStatus, Real, TelemetryField, RaceFlag, ResultStatus, SafetyCarStatus, WeatherCondition,
};

verus! {

/// The F1 UDP code of a weather condition.
pub open spec fn weather_code(w: WeatherCondition) -> u8 {
    match w {
        WeatherCondition::Clear => 0,
        WeatherCondition::LightCloud => 1,
        WeatherCondition::Overcast => 2,
        WeatherCondition::LightRain => 3,
        WeatherCondition::HeavyRain => 4,
        WeatherCondition::Storm => 5,
    }
}

/// The F1 UDP code of a safety-car state.
pub open spec fn safety_car_code(s: SafetyCarStatus) -> u8 {
    match s {
        SafetyCarStatus::NoSafetyCar => 0,
        SafetyCarStatus::Full => 1,
        SafetyCarStatus::Virtual => 2,
        SafetyCarStatus::FormationLap => 3,
    }
}

/// The F1 UDP code of a pit state.
pub open spec fn pit_status_code(s: PitStatus) -> u8 {
    match s {
        PitStatus::NotPitting => 0,
        PitStatus::Pitting => 1,
        PitStatus::InPitArea => 2,
    }
}

/// The F1 UDP code of a driver activity.
pub open spec fn driver_status_code(s: DriverStatus) -> u8 {
    match s {
        DriverStatus::InGarage => 0,
        DriverStatus::FlyingLap => 1,
        DriverStatus::InLap => 2,
        DriverStatus::OutLap => 3,
        DriverStatus::OnTrack => 4,
    }
}

/// The F1 UDP code of a result classification.
pub open spec fn result_status_code(s: ResultStatus) -> u8 {
    match s {
        ResultStatus::Invalid => 0,
        ResultStatus::Inactive => 1,
        ResultStatus::Active => 2,
        ResultStatus::Finished => 3,
        ResultStatus::DidNotFinish => 4,
        ResultStatus::Disqualified => 5,
        ResultStatus::NotClassified => 6,
        ResultStatus::Retired => 7,
    }
}

/// The F1 UDP FIA-flag code of a race flag; no information is -1.
pub open spec fn race_flag_code(f: Option<RaceFlag>) -> int {
    match f {
        None => -1,
        Some(RaceFlag::NoFlag) => 0,
        Some(RaceFlag::Green) => 1,
        Some(RaceFlag::Blue) => 2,
        Some(RaceFlag::Yellow) => 3,
        Some(RaceFlag::Red) => 4,
    }
}

/// Weather codes 0 to 5 are known and decode to the condition whose F1 code
/// is the byte read (1 light cloud, 2 overcast, ...); every other code is
/// refused.
pub proof fn law_weather_codes(value: u8)
    ensures
        weather_of(value) is Ok <==> value <= 5,
        weather_of(value) matches Ok(w) ==> weather_code(w) == value,
{
}

/// Safety-car codes 0 to 3 are known and decode to the state with that code.
pub proof fn law_safety_car_codes(value: u8)
    ensures
        safety_car_of(value) is Ok <==> value <= 3,
        safety_car_of(value) matches Ok(s) ==> safety_car_code(s) == value,
{
}

/// Pit codes 0 to 2 are known and decode to the state with that code.
pub proof fn law_pit_status_codes(value: u8)
    ensures
        pit_status_of(value) is Ok <==> value <= 2,
        pit_status_of(value) matches Ok(s) ==> pit_status_code(s) == value,
{
}

/// Driver codes 0 to 4 are known and decode to the activity with that code.
pub proof fn law_driver_status_codes(value: u8)
    ensures
        driver_status_of(value) is Ok <==> value <= 4,
        driver_status_of(value) matches Ok(s) ==> driver_status_code(s) == value,
{
}

/// Result codes 0 to 7 are known and decode to the classification with that
/// code.
pub proof fn law_result_status_codes(value: u8)
    ensures
        result_status_of(value) is Ok <==> value <= 7,
        result_status_of(value) matches Ok(s) ==> result_status_code(s) == value,
{
}

/// FIA-flag codes -1 to 4 are known and decode to the flag with that code.
pub proof fn law_race_flag_codes(value: i8)
    ensures
        race_flag_of(value) is Ok <==> -1 <= value <= 4,
        race_flag_of(value) matches Ok(f) ==> race_flag_code(f) == value,
{
}

/// The F1 UDP session-type code that a stable session name stands for;
/// zero for a name of no known session.
pub open spec fn session_code_of_name(name: Seq<char>) -> u8 {
    if name == "practice_1"@ {
        1
    } else if name == "practice_2"@ {
        2
    } else if name == "practice_3"@ {
        3
    } else if name == "practice_short"@ {
        4
    } else if name == "qualifying_1"@ {
        5
    } else if name == "qualifying_2"@ {
        6
    } else if name == "qualifying_3"@ {
        7
    } else if name == "qualifying_short"@ {
        8
    } else if name == "qualifying_one_shot"@ {
        9
    } else if name == "race"@ {
        10
    } else if name == "race_2"@ {
        11
    } else if name == "race_3"@ {
        12
    } else if name == "time_trial"@ {
        13
    } else {
        0
    }
}

/// Session codes 1 to 13 name the session of that code; every other code is
/// named as unknown.
pub proof fn law_session_type_names(value: u8)
    ensures
        session_code_of_name(session_type_name(value)) == (if 1 <= value <= 13 { value } else { 0 }),
        !(1 <= value <= 13) ==> session_type_name(value) == "unknown"@,
{
    reveal_strlit("practice_1");
    reveal_strlit("practice_2");
    reveal_strlit("practice_3");
    reveal_strlit("practice_short");
    reveal_strlit("qualifying_1");
    reveal_strlit("qualifying_2");
    reveal_strlit("qualifying_3");
    reveal_strlit("qualifying_short");
    reveal_strlit("qualifying_one_shot");
    reveal_strlit("race");
    reveal_strlit("race_2");
    reveal_strlit("race_3");
    reveal_strlit("time_trial");
    reveal_strlit("unknown");
    assert("practice_1"@[9] != "practice_2"@[9]);
    assert("practice_1"@[9] != "practice_3"@[9]);
    assert("practice_1"@.len() != "practice_short"@.len());
    assert("practice_1"@.len() != "qualifying_1"@.len());
    assert("practice_1"@.len() != "qualifying_2"@.len());
    assert("practice_1"@.len() != "qualifying_3"@.len());
    assert("practice_1"@.len() != "qualifying_short"@.len());
    assert("practice_1"@.len() != "qualifying_one_shot"@.len());
    assert("practice_1"@.len() != "race"@.len());
    assert("practice_1"@.len() != "race_2"@.len());
    assert("practice_1"@.len() != "race_3"@.len());
    assert("practice_1"@[0] != "time_trial"@[0]);
    assert("practice_1"@.len() != "unknown"@.len());
    assert("practice_2"@[9] != "practice_3"@[9]);
    assert("practice_2"@.len() != "practice_short"@.len());
    assert("practice_2"@.len() != "qualifying_1"@.len());
    assert("practice_2"@.len() != "qualifying_2"@.len());
    assert("practice_2"@.len() != "qualifying_3"@.len());
    assert("practice_2"@.len() != "qualifying_short"@.len());
    assert("practice_2"@.len() != "qualifying_one_shot"@.len());
    assert("practice_2"@.len() != "race"@.len());
    assert("practice_2"@.len() != "race_2"@.len());
    assert("practice_2"@.len() != "race_3"@.len());
    assert("practice_2"@[0] != "time_trial"@[0]);
    assert("practice_2"@.len() != "unknown"@.len());
    assert("practice_3"@.len() != "practice_short"@.len());
    assert("practice_3"@.len() != "qualifying_1"@.len());
    assert("practice_3"@.len() != "qualifying_2"@.len());
    assert("practice_3"@.len() != "qualifying_3"@.len());
    assert("practice_3"@.len() != "qualifying_short"@.len());
    assert("practice_3"@.len() != "qualifying_one_shot"@.len());
    assert("practice_3"@.len() != "race"@.len());
    assert("practice_3"@.len() != "race_2"@.len());
    assert("practice_3"@.len() != "race_3"@.len());
    assert("practice_3"@[0] != "time_trial"@[0]);
    assert("practice_3"@.len() != "unknown"@.len());
    assert("practice_short"@.len() != "qualifying_1"@.len());
    assert("practice_short"@.len() != "qualifying_2"@.len());
    assert("practice_short"@.len() != "qualifying_3"@.len());
    assert("practice_short"@.len() != "qualifying_short"@.len());
    assert("practice_short"@.len() != "qualifying_one_shot"@.len());
    assert("practice_short"@.len() != "race"@.len());
    assert("practice_short"@.len() != "race_2"@.len());
    assert("practice_short"@.len() != "race_3"@.len());
    assert("practice_short"@.len() != "time_trial"@.len());
    assert("practice_short"@.len() != "unknown"@.len());
    assert("qualifying_1"@[11] != "qualifying_2"@[11]);
    assert("qualifying_1"@[11] != "qualifying_3"@[11]);
    assert("qualifying_1"@.len() != "qualifying_short"@.len());
    assert("qualifying_1"@.len() != "qualifying_one_shot"@.len());
    assert("qualifying_1"@.len() != "race"@.len());
    assert("qualifying_1"@.len() != "race_2"@.len());
    assert("qualifying_1"@.len() != "race_3"@.len());
    assert("qualifying_1"@.len() != "time_trial"@.len());
    assert("qualifying_1"@.len() != "unknown"@.len());
    assert("qualifying_2"@[11] != "qualifying_3"@[11]);
    assert("qualifying_2"@.len() != "qualifying_short"@.len());
    assert("qualifying_2"@.len() != "qualifying_one_shot"@.len());
    assert("qualifying_2"@.len() != "race"@.len());
    assert("qualifying_2"@.len() != "race_2"@.len());
    assert("qualifying_2"@.len() != "race_3"@.len());
    assert("qualifying_2"@.len() != "time_trial"@.len());
    assert("qualifying_2"@.len() != "unknown"@.len());
    assert("qualifying_3"@.len() != "qualifying_short"@.len());
    assert("qualifying_3"@.len() != "qualifying_one_shot"@.len());
    assert("qualifying_3"@.len() != "race"@.len());
    assert("qualifying_3"@.len() != "race_2"@.len());
    assert("qualifying_3"@.len() != "race_3"@.len());
    assert("qualifying_3"@.len() != "time_trial"@.len());
    assert("qualifying_3"@.len() != "unknown"@.len());
    assert("qualifying_short"@.len() != "qualifying_one_shot"@.len());
    assert("qualifying_short"@.len() != "race"@.len());
    assert("qualifying_short"@.len() != "race_2"@.len());
    assert("qualifying_short"@.len() != "race_3"@.len());
    assert("qualifying_short"@.len() != "time_trial"@.len());
    assert("qualifying_short"@.len() != "unknown"@.len());
    assert("qualifying_one_shot"@.len() != "race"@.len());
    assert("qualifying_one_shot"@.len() != "race_2"@.len());
    assert("qualifying_one_shot"@.len() != "race_3"@.len());
    assert("qualifying_one_shot"@.len() != "time_trial"@.len());
    assert("qualifying_one_shot"@.len() != "unknown"@.len());
    assert("race"@.len() != "race_2"@.len());
    assert("race"@.len() != "race_3"@.len());
    assert("race"@.len() != "time_trial"@.len());
    assert("race"@.len() != "unknown"@.len());
    assert("race_2"@[5] != "race_3"@[5]);
    assert("race_2"@.len() != "time_trial"@.len());
    assert("race_2"@.len() != "unknown"@.len());
    assert("race_3"@.len() != "time_trial"@.len());
    assert("race_3"@.len() != "unknown"@.len());
    assert("time_trial"@.len() != "unknown"@.len());
}

/// The four-letter F1 UDP event code of an event kind.
pub open spec fn event_code(kind: F1EventKind) -> Seq<u8> {
    match kind {
        F1EventKind::SessionStarted => seq!['S' as u8, 'S' as u8, 'T' as u8, 'A' as u8],
        F1EventKind::SessionEnded => seq!['S' as u8, 'E' as u8, 'N' as u8, 'D' as u8],
        F1EventKind::FastestLap { .. } => seq!['F' as u8, 'T' as u8, 'L' as u8, 'P' as u8],
        F1EventKind::Retirement { .. } => seq!['R' as u8, 'T' as u8, 'M' as u8, 'T' as u8],
        F1EventKind::DrsEnabled => seq!['D' as u8, 'R' as u8, 'S' as u8, 'E' as u8],
        F1EventKind::DrsDisabled { .. } => seq!['D' as u8, 'R' as u8, 'S' as u8, 'D' as u8],
        F1EventKind::TeamMateInPits { .. } => seq!['T' as u8, 'M' as u8, 'P' as u8, 'T' as u8],
        F1EventKind::ChequeredFlag => seq!['C' as u8, 'H' as u8, 'Q' as u8, 'F' as u8],
        F1EventKind::RaceWinner { .. } => seq!['R' as u8, 'C' as u8, 'W' as u8, 'N' as u8],
        F1EventKind::Penalty { .. } => seq!['P' as u8, 'E' as u8, 'N' as u8, 'A' as u8],
        F1EventKind::SpeedTrap { .. } => seq!['S' as u8, 'P' as u8, 'T' as u8, 'P' as u8],
        F1EventKind::StartLights { .. } => seq!['S' as u8, 'T' as u8, 'L' as u8, 'G' as u8],
        F1EventKind::LightsOut => seq!['L' as u8, 'G' as u8, 'O' as u8, 'T' as u8],
        F1EventKind::DriveThroughServed { .. } => seq!['D' as u8, 'T' as u8, 'S' as u8, 'V' as u8],
        F1EventKind::StopGoServed { .. } => seq!['S' as u8, 'G' as u8, 'S' as u8, 'V' as u8],
        F1EventKind::Flashback { .. } => seq!['F' as u8, 'L' as u8, 'B' as u8, 'K' as u8],
        F1EventKind::Buttons { .. } => seq!['B' as u8, 'U' as u8, 'T' as u8, 'N' as u8],
        F1EventKind::RedFlag => seq!['R' as u8, 'D' as u8, 'F' as u8, 'L' as u8],
        F1EventKind::Overtake { .. } => seq!['O' as u8, 'V' as u8, 'T' as u8, 'K' as u8],
        F1EventKind::SafetyCar { .. } => seq!['S' as u8, 'C' as u8, 'A' as u8, 'R' as u8],
        F1EventKind::Collision { .. } => seq!['C' as u8, 'O' as u8, 'L' as u8, 'L' as u8],
        F1EventKind::Other { code } => code@,
    }
}

/// An event decodes to the kind whose F1 UDP code is the packet's code: a
/// decoded event always carries the four bytes it was read from.
pub proof fn law_event_kinds_carry_their_codes(code: Seq<u8>, x: Seq<u8>, p: u8)
    requires
        code.len() == 4,
    ensures
        event_kind_of(code, x, p) matches Ok(k) ==> event_code(k) =~= code,
{
}

/// The signed gear number a dashboard shows for a known gear: -1 reverse,
/// 0 neutral, the gear's number going forward.
pub open spec fn gear_number(g: Gear) -> int {
    match g {
        Gear::Reverse => -1,
        Gear::Neutral => 0,
        Gear::Forward(n) => n.spec_number() as int,
        Gear::Unknown => 0,
    }
}

/// Raw F1 gears -1 to 8 map to the known gear with that number; every other
/// raw value is an unknown gear.
pub proof fn law_f1_gears_keep_their_numbers(raw: i8, g: Gear)
    requires
        gear_maps(raw, g),
    ensures
        -1 <= raw <= 8 ==> g != Gear::Unknown && gear_number(g) == raw,
        !(-1 <= raw <= 8) ==> g == Gear::Unknown,
{
}

/// Each Lap Data value lands in the lap field of the same name: lap and
/// position numbers as read, the sector counted from one, each split time
/// as its minutes and milliseconds joined, the statuses by their codes, and
/// the pit-lane time only while its timer runs.
pub proof fn law_lap_fields_keep_their_names(s: LapSample, safety_car_delta_ms: i32)
    ensures
        lap_state_of(s, safety_car_delta_ms).current == Some(s.current_lap_number as u16),
        lap_state_of(s, safety_car_delta_ms).position == Some(s.car_position),
        lap_state_of(s, safety_car_delta_ms).current_time_ms == Some(s.current_lap_time_ms),
        lap_state_of(s, safety_car_delta_ms).last_time_ms == Some(s.last_lap_time_ms),
        lap_state_of(s, safety_car_delta_ms).invalid == Some(s.current_lap_invalid == 1),
        s.sector < 255 ==> (lap_state_of(s, safety_car_delta_ms).sector matches Some(n) && n == s.sector + 1),
        lap_state_of(s, safety_car_delta_ms).sector1_time_ms matches Some(t)
            && t == s.sector1_time_minutes_part * 60000 + s.sector1_time_ms_part,
        lap_state_of(s, safety_car_delta_ms).sector2_time_ms matches Some(t)
            && t == s.sector2_time_minutes_part * 60000 + s.sector2_time_ms_part,
        lap_state_of(s, safety_car_delta_ms).delta_to_car_in_front_ms matches Some(t)
            && t == s.delta_to_car_in_front_minutes_part * 60000 + s.delta_to_car_in_front_ms_part,
        lap_state_of(s, safety_car_delta_ms).delta_to_race_leader_ms matches Some(t)
            && t == s.delta_to_race_leader_minutes_part * 60000 + s.delta_to_race_leader_ms_part,
        lap_state_of(s, safety_car_delta_ms).distance_m == Some(s.lap_distance_m),
        lap_state_of(s, safety_car_delta_ms).total_distance_m == Some(s.total_distance_m),
        lap_state_of(s, safety_car_delta_ms).safety_car_delta_ms == Some(safety_car_delta_ms),
        lap_state_of(s, safety_car_delta_ms).pit_stops == Some(s.pit_stops),
        lap_state_of(s, safety_car_delta_ms).penalties_seconds == Some(s.penalties_seconds),
        lap_state_of(s, safety_car_delta_ms).warnings == Some(s.warnings),
        lap_state_of(s, safety_car_delta_ms).corner_cutting_warnings == Some(s.corner_cutting_warnings),
        lap_state_of(s, safety_car_delta_ms).unserved_drive_through_penalties == Some(s.unserved_drive_through_penalties),
        lap_state_of(s, safety_car_delta_ms).unserved_stop_go_penalties == Some(s.unserved_stop_go_penalties),
        lap_state_of(s, safety_car_delta_ms).grid_position == Some(s.grid_position),
        s.pit_status <= 2 ==> (lap_state_of(s, safety_car_delta_ms).pit_status matches Some(p)
            && pit_status_code(p) == s.pit_status),
        s.driver_status <= 4 ==> (lap_state_of(s, safety_car_delta_ms).driver_status matches Some(d)
            && driver_status_code(d) == s.driver_status),
        s.result_status <= 7 ==> (lap_state_of(s, safety_car_delta_ms).result_status matches Some(r)
            && result_status_code(r) == s.result_status),
        s.pit_lane_timer_active == 1 ==> lap_state_of(s, safety_car_delta_ms).pit_lane_time_ms == Some(s.pit_lane_time_ms as u32),
        s.pit_lane_timer_active != 1 ==> lap_state_of(s, safety_car_delta_ms).pit_lane_time_ms is None,
        lap_state_of(s, safety_car_delta_ms).pit_stop_time_ms == Some(s.pit_stop_time_ms as u32),
        lap_state_of(s, safety_car_delta_ms).pit_stop_should_serve_penalty == Some(s.pit_stop_should_serve_penalty == 1),
{
}

/// A Car Telemetry corner carries its surface and inner temperatures and its
/// pressure in the fields of those names, and nothing else.
pub proof fn law_telemetry_corner_keeps_its_names(surface: Real, inner: Real, pressure: Real)
    ensures
        telemetry_corner(surface, inner, pressure).surface_temperature_c == Some(surface),
        telemetry_corner(surface, inner, pressure).inner_temperature_c == Some(inner),
        telemetry_corner(surface, inner, pressure).pressure_pa == Some(pressure),
        telemetry_corner(surface, inner, pressure).wear is None,
        telemetry_corner(surface, inner, pressure).damage is None,
        telemetry_corner(surface, inner, pressure).brake_damage is None,
        telemetry_corner(surface, inner, pressure).blister is None,
{
}

/// A Car Damage corner carries its wear, damage, brake damage and blister
/// ratios in the fields of those names, and no temperature or pressure.
pub proof fn law_damage_corner_keeps_its_names(wear: Real, damage: Real, brake: Real, blister: Option<Real>)
    ensures
        damage_corner(wear, damage, brake, blister).wear matches Some(n) && n.spec_get() == wear,
        damage_corner(wear, damage, brake, blister).damage matches Some(n) && n.spec_get() == damage,
        damage_corner(wear, damage, brake, blister).brake_damage matches Some(n) && n.spec_get() == brake,
        blister matches Some(b) ==> (damage_corner(wear, damage, brake, blister).blister matches Some(n)
            && n.spec_get() == b),
        blister is None ==> damage_corner(wear, damage, brake, blister).blister is None,
        damage_corner(wear, damage, brake, blister).surface_temperature_c is None,
        damage_corner(wear, damage, brake, blister).inner_temperature_c is None,
        damage_corner(wear, damage, brake, blister).pressure_pa is None,
{
    broadcast use Normalized::lemma_spec_of;
}

/// Corner indices follow the F1 UDP order: rear left, rear right, front
/// left, front right.
pub proof fn law_blister_corners_in_udp_order(b: Corners<Real>)
    ensures
        blister_at(Some(b), 0) == Some(b.rear_left),
        blister_at(Some(b), 1) == Some(b.rear_right),
        blister_at(Some(b), 2) == Some(b.front_left),
        blister_at(Some(b), 3) == Some(b.front_right),
        blister_at(None, 0) is None,
{
}

/// Each F1 game has its own adapter id and accepts its own packet formats:
/// F1 24 the 2024 format, F1 25 the 2025 format and the 2026 Season Pack;
/// only F1 25 advertises aero values.
pub proof fn law_games_keep_their_formats(game: F1Game, packet_format: u16)
    ensures
        adapter_id_of(game) == (match game {
            F1Game::F124 => "f1-24"@,
            F1Game::F125 => "f1-25"@,
        }),
        layout_for(game, packet_format) is Some <==> match game {
            F1Game::F124 => packet_format == 2024,
            F1Game::F125 => packet_format == 2025 || packet_format == 2026,
        },
        f1_capabilities(game).contains(TelemetryField::Aero) <==> game == F1Game::F125,
{
    reveal_strlit("f1-24");
    reveal_strlit("f1-25");
}

/// Every `is_player` flag of a decoded event says whether the vehicle it
/// names is the player's, and `player_involved` whether either vehicle is.
pub proof fn law_event_player_flags(code: Seq<u8>, x: Seq<u8>, p: u8)
    ensures
        event_kind_of(code, x, p) matches Ok(F1EventKind::FastestLap { vehicle, is_player, .. }) ==> is_player == (vehicle == p),
        event_kind_of(code, x, p) matches Ok(F1EventKind::Retirement { vehicle, is_player, .. }) ==> is_player == (vehicle == p),
        event_kind_of(code, x, p) matches Ok(F1EventKind::TeamMateInPits { vehicle, is_player }) ==> is_player == (vehicle == p),
        event_kind_of(code, x, p) matches Ok(F1EventKind::RaceWinner { vehicle, is_player }) ==> is_player == (vehicle == p),
        event_kind_of(code, x, p) matches Ok(F1EventKind::Penalty { vehicle, is_player, .. }) ==> is_player == (vehicle == p),
        event_kind_of(code, x, p) matches Ok(F1EventKind::SpeedTrap { vehicle, is_player, .. }) ==> is_player == (vehicle == p),
        event_kind_of(code, x, p) matches Ok(F1EventKind::DriveThroughServed { vehicle, is_player }) ==> is_player == (vehicle == p),
        event_kind_of(code, x, p) matches Ok(F1EventKind::StopGoServed { vehicle, is_player, .. }) ==> is_player == (vehicle == p),
        event_kind_of(code, x, p) matches Ok(F1EventKind::Overtake { overtaking, overtaken, player_involved })
            ==> player_involved == (overtaking == p || overtaken == p),
        event_kind_of(code, x, p) matches Ok(F1EventKind::Collision { first, second, player_involved, .. })
            ==> player_involved == (first == p || second == p),
{
}

} // verus!
