//! Normalization of decoded F1 samples into game-neutral updates.
//!
//! Unit conversions that need floating-point arithmetic (speeds, pressures,
//! percentages as ratios, seconds as milliseconds) arrive already computed;
//! everything else, every check included, happens here.

use vstd::prelude::*;

use super::error::DecodeError;
use super::header::PacketHeader;
use super::packets::{
    CarDamageSample, CarStatusSample, CarTelemetry2Sample, CarTelemetrySample, Corners, LapSample,
    SessionSample,
};
use crate::telemetry::model::{
    in_unit_interval, ActiveAeroMode, DriverStatus, DrsState, Gear, MonotonicTimestamp, Normalized, PitStatus,
    RaceFlag, Real, ResultStatus, SafetyCarStatus, WeatherCondition,
};
use crate::telemetry::state::{
    AeroState, ConditionsState, DamageState, JobState, LapState, LightsState, NavigationState,
    SessionUpdate, TelemetryUpdate, TyreCornerState, TyreState, VehicleUpdate,
};
use crate::text::{decimal, hex_fixed, render_decimal, render_hex16};
use vstd::string::StringExecFns;

verus! {

/// Whether `g` is the gear that the raw F1 gear `raw` denotes: -1 reverse,
/// 0 neutral, 1 to 8 forward, anything else unknown.
pub open spec fn gear_maps(raw: i8, g: Gear) -> bool {
    if raw == -1 {
        g == Gear::Reverse
    } else if raw == 0 {
        g == Gear::Neutral
    } else if 1 <= raw <= 8 {
        g matches Gear::Forward(n) && n.spec_number() == raw as u8
    } else {
        g == Gear::Unknown
    }
}

/// Maps a raw F1 gear.
pub fn map_gear(gear: i8) -> (g: Gear)
    ensures
        gear_maps(gear, g),
{
    if gear == -1 {
        Gear::Reverse
    } else if gear == 0 {
        Gear::Neutral
    } else if 1 <= gear && gear <= 8 {
        match Gear::forward(gear as u8) {
            Some(g) => g,
            None => Gear::Unknown,
        }
    } else {
        Gear::Unknown
    }
}

/// The stable name of an F1 session type code.
pub open spec fn session_type_name(value: u8) -> Seq<char> {
    if value == 1 {
        "practice_1"@
    } else if value == 2 {
        "practice_2"@
    } else if value == 3 {
        "practice_3"@
    } else if value == 4 {
        "practice_short"@
    } else if value == 5 {
        "qualifying_1"@
    } else if value == 6 {
        "qualifying_2"@
    } else if value == 7 {
        "qualifying_3"@
    } else if value == 8 {
        "qualifying_short"@
    } else if value == 9 {
        "qualifying_one_shot"@
    } else if value == 10 {
        "race"@
    } else if value == 11 {
        "race_2"@
    } else if value == 12 {
        "race_3"@
    } else if value == 13 {
        "time_trial"@
    } else {
        "unknown"@
    }
}

/// Names an F1 session type code.
pub fn session_type(value: u8) -> (s: &'static str)
    ensures
        s@ == session_type_name(value),
{
    if value == 1 {
        "practice_1"
    } else if value == 2 {
        "practice_2"
    } else if value == 3 {
        "practice_3"
    } else if value == 4 {
        "practice_short"
    } else if value == 5 {
        "qualifying_1"
    } else if value == 6 {
        "qualifying_2"
    } else if value == 7 {
        "qualifying_3"
    } else if value == 8 {
        "qualifying_short"
    } else if value == 9 {
        "qualifying_one_shot"
    } else if value == 10 {
        "race"
    } else if value == 11 {
        "race_2"
    } else if value == 12 {
        "race_3"
    } else if value == 13 {
        "time_trial"
    } else {
        "unknown"
    }
}

/// What reading the byte `value` of the boolean field `field` gives.
pub open spec fn bool_of(field: &'static str, value: u8) -> Result<bool, DecodeError> {
    if value == 0 {
        Ok(false)
    } else if value == 1 {
        Ok(true)
    } else {
        Err(DecodeError::InvalidEnumValue { field, actual: value })
    }
}

/// Reads a boolean byte, rejecting values other than zero and one.
pub fn bool_value(field: &'static str, value: u8) -> (r: Result<bool, DecodeError>)
    ensures
        r == bool_of(field, value),
{
    if value == 0 {
        Ok(false)
    } else if value == 1 {
        Ok(true)
    } else {
        Err(DecodeError::InvalidEnumValue { field, actual: value })
    }
}

/// Joins the minute and millisecond parts of an F1 time.
pub fn compound_time_ms(minutes: u8, milliseconds: u16) -> (t: u32)
    ensures
        t == minutes * 60000 + milliseconds,
{
    minutes as u32 * 60000 + milliseconds as u32
}

/// The weather that an F1 weather code denotes.
pub open spec fn weather_of(value: u8) -> Result<WeatherCondition, DecodeError> {
    if value == 0 {
        Ok(WeatherCondition::Clear)
    } else if value == 1 {
        Ok(WeatherCondition::LightCloud)
    } else if value == 2 {
        Ok(WeatherCondition::Overcast)
    } else if value == 3 {
        Ok(WeatherCondition::LightRain)
    } else if value == 4 {
        Ok(WeatherCondition::HeavyRain)
    } else if value == 5 {
        Ok(WeatherCondition::Storm)
    } else {
        Err(DecodeError::InvalidEnumValue { field: "weather", actual: value })
    }
}

/// Maps an F1 weather code.
pub fn map_weather(value: u8) -> (r: Result<WeatherCondition, DecodeError>)
    ensures
        r == weather_of(value),
{
    match value {
        0 => Ok(WeatherCondition::Clear),
        1 => Ok(WeatherCondition::LightCloud),
        2 => Ok(WeatherCondition::Overcast),
        3 => Ok(WeatherCondition::LightRain),
        4 => Ok(WeatherCondition::HeavyRain),
        5 => Ok(WeatherCondition::Storm),
        actual => Err(DecodeError::InvalidEnumValue { field: "weather", actual }),
    }
}

/// The safety-car state that an F1 safety-car code denotes.
pub open spec fn safety_car_of(value: u8) -> Result<SafetyCarStatus, DecodeError> {
    if value == 0 {
        Ok(SafetyCarStatus::NoSafetyCar)
    } else if value == 1 {
        Ok(SafetyCarStatus::Full)
    } else if value == 2 {
        Ok(SafetyCarStatus::Virtual)
    } else if value == 3 {
        Ok(SafetyCarStatus::FormationLap)
    } else {
        Err(DecodeError::InvalidEnumValue { field: "safety_car_status", actual: value })
    }
}

/// Maps an F1 safety-car code.
pub fn map_safety_car(value: u8) -> (r: Result<SafetyCarStatus, DecodeError>)
    ensures
        r == safety_car_of(value),
{
    match value {
        0 => Ok(SafetyCarStatus::NoSafetyCar),
        1 => Ok(SafetyCarStatus::Full),
        2 => Ok(SafetyCarStatus::Virtual),
        3 => Ok(SafetyCarStatus::FormationLap),
        actual => Err(DecodeError::InvalidEnumValue { field: "safety_car_status", actual }),
    }
}

/// The pit state that an F1 pit-status code denotes.
pub open spec fn pit_status_of(value: u8) -> Result<PitStatus, DecodeError> {
    if value == 0 {
        Ok(PitStatus::NotPitting)
    } else if value == 1 {
        Ok(PitStatus::Pitting)
    } else if value == 2 {
        Ok(PitStatus::InPitArea)
    } else {
        Err(DecodeError::InvalidEnumValue { field: "pit_status", actual: value })
    }
}

/// Maps an F1 pit-status code.
pub fn map_pit_status(value: u8) -> (r: Result<PitStatus, DecodeError>)
    ensures
        r == pit_status_of(value),
{
    match value {
        0 => Ok(PitStatus::NotPitting),
        1 => Ok(PitStatus::Pitting),
        2 => Ok(PitStatus::InPitArea),
        actual => Err(DecodeError::InvalidEnumValue { field: "pit_status", actual }),
    }
}

/// The driver activity that an F1 driver-status code denotes.
pub open spec fn driver_status_of(value: u8) -> Result<DriverStatus, DecodeError> {
    if value == 0 {
        Ok(DriverStatus::InGarage)
    } else if value == 1 {
        Ok(DriverStatus::FlyingLap)
    } else if value == 2 {
        Ok(DriverStatus::InLap)
    } else if value == 3 {
        Ok(DriverStatus::OutLap)
    } else if value == 4 {
        Ok(DriverStatus::OnTrack)
    } else {
        Err(DecodeError::InvalidEnumValue { field: "driver_status", actual: value })
    }
}

/// Maps an F1 driver-status code.
pub fn map_driver_status(value: u8) -> (r: Result<DriverStatus, DecodeError>)
    ensures
        r == driver_status_of(value),
{
    match value {
        0 => Ok(DriverStatus::InGarage),
        1 => Ok(DriverStatus::FlyingLap),
        2 => Ok(DriverStatus::InLap),
        3 => Ok(DriverStatus::OutLap),
        4 => Ok(DriverStatus::OnTrack),
        actual => Err(DecodeError::InvalidEnumValue { field: "driver_status", actual }),
    }
}

/// The classification that an F1 result-status code denotes.
pub open spec fn result_status_of(value: u8) -> Result<ResultStatus, DecodeError> {
    if value == 0 {
        Ok(ResultStatus::Invalid)
    } else if value == 1 {
        Ok(ResultStatus::Inactive)
    } else if value == 2 {
        Ok(ResultStatus::Active)
    } else if value == 3 {
        Ok(ResultStatus::Finished)
    } else if value == 4 {
        Ok(ResultStatus::DidNotFinish)
    } else if value == 5 {
        Ok(ResultStatus::Disqualified)
    } else if value == 6 {
        Ok(ResultStatus::NotClassified)
    } else if value == 7 {
        Ok(ResultStatus::Retired)
    } else {
        Err(DecodeError::InvalidEnumValue { field: "result_status", actual: value })
    }
}

/// Maps an F1 result-status code.
pub fn map_result_status(value: u8) -> (r: Result<ResultStatus, DecodeError>)
    ensures
        r == result_status_of(value),
{
    match value {
        0 => Ok(ResultStatus::Invalid),
        1 => Ok(ResultStatus::Inactive),
        2 => Ok(ResultStatus::Active),
        3 => Ok(ResultStatus::Finished),
        4 => Ok(ResultStatus::DidNotFinish),
        5 => Ok(ResultStatus::Disqualified),
        6 => Ok(ResultStatus::NotClassified),
        7 => Ok(ResultStatus::Retired),
        actual => Err(DecodeError::InvalidEnumValue { field: "result_status", actual }),
    }
}

/// The byte that stores the signed value `v` in two's complement.
pub open spec fn signed_byte(v: i8) -> u8 {
    (if v < 0 {
        v + 256
    } else {
        v as int
    }) as u8
}

/// The race flag that an F1 FIA-flag code denotes: -1 is no information.
pub open spec fn race_flag_of(value: i8) -> Result<Option<RaceFlag>, DecodeError> {
    if value == -1 {
        Ok(None)
    } else if value == 0 {
        Ok(Some(RaceFlag::NoFlag))
    } else if value == 1 {
        Ok(Some(RaceFlag::Green))
    } else if value == 2 {
        Ok(Some(RaceFlag::Blue))
    } else if value == 3 {
        Ok(Some(RaceFlag::Yellow))
    } else if value == 4 {
        Ok(Some(RaceFlag::Red))
    } else {
        Err(DecodeError::InvalidEnumValue { field: "vehicle_fia_flags", actual: signed_byte(value) })
    }
}

/// Maps an F1 FIA-flag code.
pub fn map_race_flag(value: i8) -> (r: Result<Option<RaceFlag>, DecodeError>)
    ensures
        r == race_flag_of(value),
{
    if value == -1 {
        Ok(None)
    } else if value == 0 {
        Ok(Some(RaceFlag::NoFlag))
    } else if value == 1 {
        Ok(Some(RaceFlag::Green))
    } else if value == 2 {
        Ok(Some(RaceFlag::Blue))
    } else if value == 3 {
        Ok(Some(RaceFlag::Yellow))
    } else if value == 4 {
        Ok(Some(RaceFlag::Red))
    } else {
        let byte: u8 = if value < 0 {
            (value as i16 + 256) as u8
        } else {
            value as u8
        };
        Err(DecodeError::InvalidEnumValue { field: "vehicle_fia_flags", actual: byte })
    }
}

/// The session identifier of a header: the session UID as sixteen
/// lowercase hexadecimal digits.
pub open spec fn session_text(h: PacketHeader) -> Seq<char> {
    hex_fixed(h.session_uid as nat, 16)
}

/// Renders the session identifier of a header.
pub fn session_id(header: &PacketHeader) -> (s: String)
    ensures
        s@ == session_text(*header),
{
    render_hex16(header.session_uid)
}

/// Whether `n` is the normalized value `value` checked for `field`, or the
/// error that rejects it.
pub open spec fn normalized_as(field: &'static str, value: Real, r: Result<Normalized, DecodeError>) -> bool {
    match r {
        Ok(n) => in_unit_interval(value.bits) && n.spec_get() == value && n == normalized_value(value),
        Err(e) => !in_unit_interval(value.bits) && e == DecodeError::InvalidNormalizedValue { field, value },
    }
}

/// The normalized value holding `value`.
pub open spec fn normalized_value(value: Real) -> Normalized {
    Normalized::spec_of(value)
}

/// Checks that `value` lies in the closed unit interval.
pub fn normalized(field: &'static str, value: Real) -> (r: Result<Normalized, DecodeError>)
    ensures
        normalized_as(field, value, r),
{
    match Normalized::new(value) {
        Ok(n) => Ok(n),
        Err(_) => Err(DecodeError::InvalidNormalizedValue { field, value }),
    }
}

/// Whether `u` carries the receive time, session and frame of a packet with
/// header `h`, and no extension values.
pub open spec fn stamped_by(u: TelemetryUpdate, h: PacketHeader, received_at: MonotonicTimestamp) -> bool {
    &&& u.received_at == received_at
    &&& u.session_id matches Some(s) && s@ == session_text(h)
    &&& u.frame_id == Some(h.overall_frame_identifier)
    &&& u.extensions@.len() == 0
    &&& u.navigation == NavigationState::empty()
    &&& u.lights == LightsState::empty()
    &&& u.job == JobState::empty()
}

fn stamped_update(header: &PacketHeader, received_at: MonotonicTimestamp) -> (u: TelemetryUpdate)
    ensures
        stamped_by(u, *header, received_at),
        u.vehicle == VehicleUpdate::empty(),
        u.lap == LapState::empty(),
        u.session == SessionUpdate::empty(),
        u.tyres == TyreState::empty(),
        u.conditions == ConditionsState::empty(),
        u.damage == DamageState::empty(),
        u.aero == AeroState::empty(),
{
    let mut u = TelemetryUpdate::default();
    u.received_at = received_at;
    u.session_id = Some(session_id(header));
    u.frame_id = Some(header.overall_frame_identifier);
    u
}

/// Car Telemetry values computed with floating-point arithmetic.
#[derive(Debug, Clone, Copy, PartialEq, Eq, Structural)]
pub struct TelemetryReals {
    /// Speed in metres per second: the kilometres per hour divided by 3.6.
    pub speed_mps: Real,
    /// Shift-light progression as a ratio: the percentage divided by 100.
    pub rev_lights: Real,
    /// Tyre surface temperatures in degrees Celsius.
    pub surface_temperature_c: Corners<Real>,
    /// Tyre inner temperatures in degrees Celsius.
    pub inner_temperature_c: Corners<Real>,
    /// Tyre pressures in pascals: the PSI times 6894.757.
    pub pressure_pa: Corners<Real>,
}

/// The tyre corner a Car Telemetry packet reports.
pub open spec fn telemetry_corner(surface: Real, inner: Real, pressure: Real) -> TyreCornerState {
    TyreCornerState {
        surface_temperature_c: Some(surface),
        inner_temperature_c: Some(inner),
        pressure_pa: Some(pressure),
        wear: None,
        damage: None,
        brake_damage: None,
        blister: None,
    }
}

fn corner_of_telemetry(surface: Real, inner: Real, pressure: Real) -> (c: TyreCornerState)
    ensures
        c == telemetry_corner(surface, inner, pressure),
{
    TyreCornerState {
        surface_temperature_c: Some(surface),
        inner_temperature_c: Some(inner),
        pressure_pa: Some(pressure),
        wear: None,
        damage: None,
        brake_damage: None,
        blister: None,
    }
}

/// Maps a Car Telemetry sample; throttle, brake and rev lights must lie in
/// the closed unit interval.
pub fn map_player_sample(
    header: &PacketHeader,
    sample: CarTelemetrySample,
    reals: TelemetryReals,
    received_at: MonotonicTimestamp,
    drs: DrsState,
) -> (r: Result<TelemetryUpdate, DecodeError>)
    ensures
        match r {
            Ok(u) => {
                &&& stamped_by(u, *header, received_at)
                &&& in_unit_interval(sample.throttle.bits)
                &&& in_unit_interval(sample.brake.bits)
                &&& in_unit_interval(reals.rev_lights.bits)
                &&& u.vehicle.speed_mps == Some(reals.speed_mps)
                &&& u.vehicle.gear matches Some(g) && gear_maps(sample.gear, g)
                &&& u.vehicle.rpm == Some(sample.engine_rpm)
                &&& u.vehicle.rev_lights matches Some(n) && n.spec_get() == reals.rev_lights
                &&& u.vehicle.throttle matches Some(n) && n.spec_get() == sample.throttle
                &&& u.vehicle.brake matches Some(n) && n.spec_get() == sample.brake
                &&& u.vehicle.drs == Some(drs)
                &&& u.vehicle.rpm_max is None && u.vehicle.fuel_kg is None && u.vehicle.fuel_capacity_kg is None
                &&& u.vehicle.fuel_remaining_laps is None && u.vehicle.fuel_liters is None
                &&& u.vehicle.fuel_capacity_liters is None && u.vehicle.fuel_range_km is None
                &&& u.vehicle.fuel_warning is None && u.vehicle.pit_limiter is None && u.vehicle.ers_energy_j is None
                &&& u.tyres == (TyreState {
                    rear_left: Some(telemetry_corner(reals.surface_temperature_c.rear_left, reals.inner_temperature_c.rear_left, reals.pressure_pa.rear_left)),
                    rear_right: Some(telemetry_corner(reals.surface_temperature_c.rear_right, reals.inner_temperature_c.rear_right, reals.pressure_pa.rear_right)),
                    front_left: Some(telemetry_corner(reals.surface_temperature_c.front_left, reals.inner_temperature_c.front_left, reals.pressure_pa.front_left)),
                    front_right: Some(telemetry_corner(reals.surface_temperature_c.front_right, reals.inner_temperature_c.front_right, reals.pressure_pa.front_right)),
                    actual_compound: None,
                    visual_compound: None,
                    age_laps: None,
                })
                &&& u.lap == LapState::empty() && u.session == SessionUpdate::empty()
                &&& u.conditions == ConditionsState::empty() && u.damage == DamageState::empty()
                &&& u.aero == AeroState::empty()
            },
            Err(e) => {
                ||| !in_unit_interval(sample.throttle.bits)
                    && e == DecodeError::InvalidNormalizedValue { field: "throttle", value: sample.throttle }
                ||| in_unit_interval(sample.throttle.bits)
                    && !in_unit_interval(sample.brake.bits)
                    && e == DecodeError::InvalidNormalizedValue { field: "brake", value: sample.brake }
                ||| in_unit_interval(sample.throttle.bits)
                    && in_unit_interval(sample.brake.bits)
                    && !in_unit_interval(reals.rev_lights.bits)
                    && e == DecodeError::InvalidNormalizedValue { field: "rev_lights", value: reals.rev_lights }
            },
        },
{
    let throttle = normalized("throttle", sample.throttle)?;
    let brake = normalized("brake", sample.brake)?;
    let rev_lights = normalized("rev_lights", reals.rev_lights)?;
    let mut u = stamped_update(header, received_at);
    u.vehicle.speed_mps = Some(reals.speed_mps);
    u.vehicle.gear = Some(map_gear(sample.gear));
    u.vehicle.rpm = Some(sample.engine_rpm);
    u.vehicle.rev_lights = Some(rev_lights);
    u.vehicle.throttle = Some(throttle);
    u.vehicle.brake = Some(brake);
    u.vehicle.drs = Some(drs);
    u.tyres.rear_left = Some(corner_of_telemetry(
        reals.surface_temperature_c.rear_left,
        reals.inner_temperature_c.rear_left,
        reals.pressure_pa.rear_left,
    ));
    u.tyres.rear_right = Some(corner_of_telemetry(
        reals.surface_temperature_c.rear_right,
        reals.inner_temperature_c.rear_right,
        reals.pressure_pa.rear_right,
    ));
    u.tyres.front_left = Some(corner_of_telemetry(
        reals.surface_temperature_c.front_left,
        reals.inner_temperature_c.front_left,
        reals.pressure_pa.front_left,
    ));
    u.tyres.front_right = Some(corner_of_telemetry(
        reals.surface_temperature_c.front_right,
        reals.inner_temperature_c.front_right,
        reals.pressure_pa.front_right,
    ));
    Ok(u)
}

/// Session values computed with floating-point arithmetic.
#[derive(Debug, Clone, Copy, PartialEq, Eq, Structural)]
pub struct SessionReals {
    /// Pit speed limit in metres per second: the kilometres per hour divided by 3.6.
    pub pit_speed_limit_mps: Real,
    /// Track temperature in degrees Celsius.
    pub track_temperature_c: Real,
    /// Air temperature in degrees Celsius.
    pub air_temperature_c: Real,
}

/// Maps a Session sample; the weather and safety-car codes must be known.
pub fn map_session_sample(
    header: &PacketHeader,
    sample: SessionSample,
    reals: SessionReals,
    received_at: MonotonicTimestamp,
) -> (r: Result<TelemetryUpdate, DecodeError>)
    ensures
        match r {
            Ok(u) => {
                &&& stamped_by(u, *header, received_at)
                &&& weather_of(sample.weather) is Ok
                &&& safety_car_of(sample.safety_car_status) is Ok
                &&& (if sample.track_id >= 0 {
                    u.session.track_id matches Some(t) && t@ == decimal(sample.track_id as nat)
                } else {
                    u.session.track_id is None
                })
                &&& u.session.remaining_time_ms == Some((sample.session_time_left_s * 1000) as u64)
                &&& u.session.total_laps == Some(sample.total_laps as u16)
                &&& u.session.session_type matches Some(t) && t@ == session_type_name(sample.session_type)
                &&& u.session.track_length_m == Some(sample.track_length_m as u32)
                &&& u.session.pit_speed_limit_mps == Some(reals.pit_speed_limit_mps)
                &&& u.session.safety_car_status == Some(safety_car_of(sample.safety_car_status)->Ok_0)
                &&& u.session.race_flag is None
                &&& u.conditions == (ConditionsState {
                    weather: Some(weather_of(sample.weather)->Ok_0),
                    track_temperature_c: Some(reals.track_temperature_c),
                    air_temperature_c: Some(reals.air_temperature_c),
                })
                &&& u.vehicle == VehicleUpdate::empty() && u.lap == LapState::empty()
                &&& u.tyres == TyreState::empty() && u.damage == DamageState::empty()
                &&& u.aero == AeroState::empty()
            },
            Err(e) => {
                ||| weather_of(sample.weather) == Err::<WeatherCondition, DecodeError>(e)
                ||| weather_of(sample.weather) is Ok && safety_car_of(sample.safety_car_status) == Err::<
                    SafetyCarStatus,
                    DecodeError,
                >(e)
            },
        },
{
    let weather = map_weather(sample.weather)?;
    let safety_car_status = map_safety_car(sample.safety_car_status)?;
    let mut u = stamped_update(header, received_at);
    if sample.track_id >= 0 {
        u.session.track_id = Some(render_decimal(sample.track_id as u64));
    }
    u.session.remaining_time_ms = Some(sample.session_time_left_s as u64 * 1000);
    u.session.total_laps = Some(sample.total_laps as u16);
    u.session.session_type = Some(String::from_str(session_type(sample.session_type)));
    u.session.track_length_m = Some(sample.track_length_m as u32);
    u.session.pit_speed_limit_mps = Some(reals.pit_speed_limit_mps);
    u.session.safety_car_status = Some(safety_car_status);
    u.conditions.weather = Some(weather);
    u.conditions.track_temperature_c = Some(reals.track_temperature_c);
    u.conditions.air_temperature_c = Some(reals.air_temperature_c);
    Ok(u)
}

/// The checks of a Lap Data sample, in order: pit, driver and result status,
/// sector, then the three boolean bytes.
pub open spec fn lap_error(s: LapSample) -> Option<DecodeError> {
    if pit_status_of(s.pit_status) is Err {
        Some(pit_status_of(s.pit_status)->Err_0)
    } else if driver_status_of(s.driver_status) is Err {
        Some(driver_status_of(s.driver_status)->Err_0)
    } else if result_status_of(s.result_status) is Err {
        Some(result_status_of(s.result_status)->Err_0)
    } else if s.sector > 2 {
        Some(DecodeError::InvalidEnumValue { field: "sector", actual: s.sector })
    } else if bool_of("current_lap_invalid", s.current_lap_invalid) is Err {
        Some(bool_of("current_lap_invalid", s.current_lap_invalid)->Err_0)
    } else if bool_of("pit_lane_timer_active", s.pit_lane_timer_active) is Err {
        Some(bool_of("pit_lane_timer_active", s.pit_lane_timer_active)->Err_0)
    } else if bool_of("pit_stop_should_serve_penalty", s.pit_stop_should_serve_penalty) is Err {
        Some(bool_of("pit_stop_should_serve_penalty", s.pit_stop_should_serve_penalty)->Err_0)
    } else {
        None
    }
}

/// The lap state a valid Lap Data sample reports, the safety-car delta given
/// in milliseconds.
pub open spec fn lap_state_of(s: LapSample, safety_car_delta_ms: i32) -> LapState {
    LapState {
        current: Some(s.current_lap_number as u16),
        position: Some(s.car_position),
        current_time_ms: Some(s.current_lap_time_ms),
        last_time_ms: Some(s.last_lap_time_ms),
        delta_to_best_ms: None,
        invalid: Some(s.current_lap_invalid == 1),
        sector: Some((s.sector + 1) as u8),
        sector1_time_ms: Some((s.sector1_time_minutes_part * 60000 + s.sector1_time_ms_part) as u32),
        sector2_time_ms: Some((s.sector2_time_minutes_part * 60000 + s.sector2_time_ms_part) as u32),
        delta_to_car_in_front_ms: Some((s.delta_to_car_in_front_minutes_part * 60000 + s.delta_to_car_in_front_ms_part) as u32),
        delta_to_race_leader_ms: Some((s.delta_to_race_leader_minutes_part * 60000 + s.delta_to_race_leader_ms_part) as u32),
        distance_m: Some(s.lap_distance_m),
        total_distance_m: Some(s.total_distance_m),
        safety_car_delta_ms: Some(safety_car_delta_ms),
        pit_status: Some(pit_status_of(s.pit_status)->Ok_0),
        pit_stops: Some(s.pit_stops),
        penalties_seconds: Some(s.penalties_seconds),
        warnings: Some(s.warnings),
        corner_cutting_warnings: Some(s.corner_cutting_warnings),
        unserved_drive_through_penalties: Some(s.unserved_drive_through_penalties),
        unserved_stop_go_penalties: Some(s.unserved_stop_go_penalties),
        grid_position: Some(s.grid_position),
        driver_status: Some(driver_status_of(s.driver_status)->Ok_0),
        result_status: Some(result_status_of(s.result_status)->Ok_0),
        pit_lane_time_ms: if s.pit_lane_timer_active == 1 {
            Some(s.pit_lane_time_ms as u32)
        } else {
            None
        },
        pit_stop_time_ms: Some(s.pit_stop_time_ms as u32),
        pit_stop_should_serve_penalty: Some(s.pit_stop_should_serve_penalty == 1),
    }
}

/// Maps a Lap Data sample. `safety_car_delta_ms` is the safety-car delta in
/// whole milliseconds, or `None` when it does not fit an `i32`.
pub fn map_lap_sample(
    header: &PacketHeader,
    sample: LapSample,
    safety_car_delta_ms: Option<i32>,
    received_at: MonotonicTimestamp,
) -> (r: Result<TelemetryUpdate, DecodeError>)
    ensures
        match r {
            Ok(u) => {
                &&& lap_error(sample) is None
                &&& safety_car_delta_ms is Some
                &&& stamped_by(u, *header, received_at)
                &&& u.lap == lap_state_of(sample, safety_car_delta_ms->0)
                &&& u.vehicle == VehicleUpdate::empty() && u.session == SessionUpdate::empty()
                &&& u.tyres == TyreState::empty() && u.conditions == ConditionsState::empty()
                &&& u.damage == DamageState::empty() && u.aero == AeroState::empty()
            },
            Err(e) => {
                ||| lap_error(sample) == Some(e)
                ||| lap_error(sample) is None && safety_car_delta_ms is None
                    && e == DecodeError::InvalidNumericValue { field: "safety_car_delta", value: sample.safety_car_delta_s }
            },
        },
{
    let pit_status = map_pit_status(sample.pit_status)?;
    let driver_status = map_driver_status(sample.driver_status)?;
    let result_status = map_result_status(sample.result_status)?;
    if sample.sector > 2 {
        return Err(DecodeError::InvalidEnumValue { field: "sector", actual: sample.sector });
    }
    let invalid = bool_value("current_lap_invalid", sample.current_lap_invalid)?;
    let pit_lane_timer_active = bool_value("pit_lane_timer_active", sample.pit_lane_timer_active)?;
    let pit_stop_should_serve_penalty = bool_value(
        "pit_stop_should_serve_penalty",
        sample.pit_stop_should_serve_penalty,
    )?;
    let delta = match safety_car_delta_ms {
        Some(delta) => delta,
        None => {
            return Err(DecodeError::InvalidNumericValue {
                field: "safety_car_delta",
                value: sample.safety_car_delta_s,
            });
        },
    };
    let mut u = stamped_update(header, received_at);
    u.lap = LapState {
        current: Some(sample.current_lap_number as u16),
        position: Some(sample.car_position),
        current_time_ms: Some(sample.current_lap_time_ms),
        last_time_ms: Some(sample.last_lap_time_ms),
        delta_to_best_ms: None,
        invalid: Some(invalid),
        sector: Some(sample.sector + 1),
        sector1_time_ms: Some(compound_time_ms(sample.sector1_time_minutes_part, sample.sector1_time_ms_part)),
        sector2_time_ms: Some(compound_time_ms(sample.sector2_time_minutes_part, sample.sector2_time_ms_part)),
        delta_to_car_in_front_ms: Some(compound_time_ms(
            sample.delta_to_car_in_front_minutes_part,
            sample.delta_to_car_in_front_ms_part,
        )),
        delta_to_race_leader_ms: Some(compound_time_ms(
            sample.delta_to_race_leader_minutes_part,
            sample.delta_to_race_leader_ms_part,
        )),
        distance_m: Some(sample.lap_distance_m),
        total_distance_m: Some(sample.total_distance_m),
        safety_car_delta_ms: Some(delta),
        pit_status: Some(pit_status),
        pit_stops: Some(sample.pit_stops),
        penalties_seconds: Some(sample.penalties_seconds),
        warnings: Some(sample.warnings),
        corner_cutting_warnings: Some(sample.corner_cutting_warnings),
        unserved_drive_through_penalties: Some(sample.unserved_drive_through_penalties),
        unserved_stop_go_penalties: Some(sample.unserved_stop_go_penalties),
        grid_position: Some(sample.grid_position),
        driver_status: Some(driver_status),
        result_status: Some(result_status),
        pit_lane_time_ms: if pit_lane_timer_active {
            Some(sample.pit_lane_time_ms as u32)
        } else {
            None
        },
        pit_stop_time_ms: Some(sample.pit_stop_time_ms as u32),
        pit_stop_should_serve_penalty: Some(pit_stop_should_serve_penalty),
    };
    Ok(u)
}

/// Maps a Car Status sample; the FIA flag code must be known.
pub fn map_status_sample(
    header: &PacketHeader,
    sample: CarStatusSample,
    received_at: MonotonicTimestamp,
    drs: DrsState,
) -> (r: Result<TelemetryUpdate, DecodeError>)
    ensures
        match r {
            Ok(u) => {
                &&& race_flag_of(sample.vehicle_fia_flag) is Ok
                &&& stamped_by(u, *header, received_at)
                &&& u.vehicle == (VehicleUpdate {
                    rpm_max: Some(sample.rpm_max),
                    drs: Some(drs),
                    fuel_kg: Some(sample.fuel_kg),
                    fuel_capacity_kg: Some(sample.fuel_capacity_kg),
                    fuel_remaining_laps: Some(sample.fuel_remaining_laps),
                    pit_limiter: Some(sample.pit_limiter_active),
                    ers_energy_j: Some(sample.ers_store_energy_j),
                    ..VehicleUpdate::empty()
                })
                &&& u.session == (SessionUpdate {
                    race_flag: race_flag_of(sample.vehicle_fia_flag)->Ok_0,
                    ..SessionUpdate::empty()
                })
                &&& u.tyres == (TyreState {
                    actual_compound: Some(sample.actual_tyre_compound),
                    visual_compound: Some(sample.visual_tyre_compound),
                    age_laps: Some(sample.tyre_age_laps),
                    ..TyreState::empty()
                })
                &&& u.lap == LapState::empty() && u.conditions == ConditionsState::empty()
                &&& u.damage == DamageState::empty() && u.aero == AeroState::empty()
            },
            Err(e) => race_flag_of(sample.vehicle_fia_flag) == Err::<Option<RaceFlag>, DecodeError>(e),
        },
{
    let race_flag = map_race_flag(sample.vehicle_fia_flag)?;
    let mut u = stamped_update(header, received_at);
    u.vehicle.rpm_max = Some(sample.rpm_max);
    u.vehicle.drs = Some(drs);
    u.vehicle.fuel_kg = Some(sample.fuel_kg);
    u.vehicle.fuel_capacity_kg = Some(sample.fuel_capacity_kg);
    u.vehicle.fuel_remaining_laps = Some(sample.fuel_remaining_laps);
    u.vehicle.pit_limiter = Some(sample.pit_limiter_active);
    u.vehicle.ers_energy_j = Some(sample.ers_store_energy_j);
    u.session.race_flag = race_flag;
    u.tyres.actual_compound = Some(sample.actual_tyre_compound);
    u.tyres.visual_compound = Some(sample.visual_tyre_compound);
    u.tyres.age_laps = Some(sample.tyre_age_laps);
    Ok(u)
}

/// Maps a Car Telemetry 2 sample.
pub fn map_telemetry2_sample(
    header: &PacketHeader,
    sample: CarTelemetry2Sample,
    received_at: MonotonicTimestamp,
) -> (u: TelemetryUpdate)
    ensures
        stamped_by(u, *header, received_at),
        u.aero == (AeroState {
            mode: Some(
                if sample.active_aero_mode == 0 {
                    ActiveAeroMode::Corner
                } else {
                    ActiveAeroMode::Straight
                },
            ),
            available: Some(sample.active_aero_available),
            activation_distance_m: Some(sample.active_aero_activation_distance_m as u32),
            overtake_available: Some(sample.overtake_available),
            overtake_active: Some(sample.overtake_active),
            overtake_activation_distance_m: Some(sample.overtake_activation_distance_m as u32),
            regulations_2026: Some(sample.regulations_2026),
            driving_wrong_way: Some(sample.driving_wrong_way),
        }),
        u.vehicle == VehicleUpdate::empty() && u.lap == LapState::empty(),
        u.session == SessionUpdate::empty() && u.tyres == TyreState::empty(),
        u.conditions == ConditionsState::empty() && u.damage == DamageState::empty(),
{
    let mut u = stamped_update(header, received_at);
    u.aero = AeroState {
        mode: Some(
            if sample.active_aero_mode == 0 {
                ActiveAeroMode::Corner
            } else {
                ActiveAeroMode::Straight
            },
        ),
        available: Some(sample.active_aero_available),
        activation_distance_m: Some(sample.active_aero_activation_distance_m as u32),
        overtake_available: Some(sample.overtake_available),
        overtake_active: Some(sample.overtake_active),
        overtake_activation_distance_m: Some(sample.overtake_activation_distance_m as u32),
        regulations_2026: Some(sample.regulations_2026),
        driving_wrong_way: Some(sample.driving_wrong_way),
    };
    u
}

/// Damage values computed with floating-point arithmetic: each percentage
/// divided by 100.
#[derive(Debug, Clone, Copy, PartialEq, Eq, Structural)]
pub struct DamageRatios {
    /// Tyre wear ratios.
    pub wear: Corners<Real>,
    /// Tyre damage ratios.
    pub tyre_damage: Corners<Real>,
    /// Brake damage ratios.
    pub brake_damage: Corners<Real>,
    /// Tyre blister ratios, where the layout reports blisters.
    pub blister: Option<Corners<Real>>,
    /// Front left wing damage ratio.
    pub front_left_wing: Real,
    /// Front right wing damage ratio.
    pub front_right_wing: Real,
    /// Rear wing damage ratio.
    pub rear_wing: Real,
    /// Floor damage ratio.
    pub floor: Real,
    /// Diffuser damage ratio.
    pub diffuser: Real,
    /// Sidepod damage ratio.
    pub sidepod: Real,
    /// Gearbox damage ratio.
    pub gearbox: Real,
    /// Engine damage ratio.
    pub engine: Real,
    /// Engine mguh wear damage ratio.
    pub engine_mguh_wear: Real,
    /// Engine es wear damage ratio.
    pub engine_es_wear: Real,
    /// Engine ce wear damage ratio.
    pub engine_ce_wear: Real,
    /// Engine ice wear damage ratio.
    pub engine_ice_wear: Real,
    /// Engine mguk wear damage ratio.
    pub engine_mguk_wear: Real,
    /// Engine tc wear damage ratio.
    pub engine_tc_wear: Real,
}

/// The first damage ratio outside the closed unit interval, in the order
/// the corners and parts are checked, as the error that rejects it.
pub open spec fn damage_ratio_error(r: DamageRatios) -> Option<DecodeError> {
    if !in_unit_interval(r.wear.rear_left.bits) {
        Some(DecodeError::InvalidNormalizedValue { field: "tyre_wear", value: r.wear.rear_left })
    }     else if !in_unit_interval(r.tyre_damage.rear_left.bits) {
        Some(DecodeError::InvalidNormalizedValue { field: "tyre_damage", value: r.tyre_damage.rear_left })
    }     else if !in_unit_interval(r.brake_damage.rear_left.bits) {
        Some(DecodeError::InvalidNormalizedValue { field: "brake_damage", value: r.brake_damage.rear_left })
    }     else if r.blister is Some && !in_unit_interval(r.blister->0.rear_left.bits) {
        Some(DecodeError::InvalidNormalizedValue { field: "tyre_blister", value: r.blister->0.rear_left })
    }     else if !in_unit_interval(r.wear.rear_right.bits) {
        Some(DecodeError::InvalidNormalizedValue { field: "tyre_wear", value: r.wear.rear_right })
    }     else if !in_unit_interval(r.tyre_damage.rear_right.bits) {
        Some(DecodeError::InvalidNormalizedValue { field: "tyre_damage", value: r.tyre_damage.rear_right })
    }     else if !in_unit_interval(r.brake_damage.rear_right.bits) {
        Some(DecodeError::InvalidNormalizedValue { field: "brake_damage", value: r.brake_damage.rear_right })
    }     else if r.blister is Some && !in_unit_interval(r.blister->0.rear_right.bits) {
        Some(DecodeError::InvalidNormalizedValue { field: "tyre_blister", value: r.blister->0.rear_right })
    }     else if !in_unit_interval(r.wear.front_left.bits) {
        Some(DecodeError::InvalidNormalizedValue { field: "tyre_wear", value: r.wear.front_left })
    }     else if !in_unit_interval(r.tyre_damage.front_left.bits) {
        Some(DecodeError::InvalidNormalizedValue { field: "tyre_damage", value: r.tyre_damage.front_left })
    }     else if !in_unit_interval(r.brake_damage.front_left.bits) {
        Some(DecodeError::InvalidNormalizedValue { field: "brake_damage", value: r.brake_damage.front_left })
    }     else if r.blister is Some && !in_unit_interval(r.blister->0.front_left.bits) {
        Some(DecodeError::InvalidNormalizedValue { field: "tyre_blister", value: r.blister->0.front_left })
    }     else if !in_unit_interval(r.wear.front_right.bits) {
        Some(DecodeError::InvalidNormalizedValue { field: "tyre_wear", value: r.wear.front_right })
    }     else if !in_unit_interval(r.tyre_damage.front_right.bits) {
        Some(DecodeError::InvalidNormalizedValue { field: "tyre_damage", value: r.tyre_damage.front_right })
    }     else if !in_unit_interval(r.brake_damage.front_right.bits) {
        Some(DecodeError::InvalidNormalizedValue { field: "brake_damage", value: r.brake_damage.front_right })
    }     else if r.blister is Some && !in_unit_interval(r.blister->0.front_right.bits) {
        Some(DecodeError::InvalidNormalizedValue { field: "tyre_blister", value: r.blister->0.front_right })
    }     else if !in_unit_interval(r.front_left_wing.bits) {
        Some(DecodeError::InvalidNormalizedValue { field: "front_left_wing", value: r.front_left_wing })
    }     else if !in_unit_interval(r.front_right_wing.bits) {
        Some(DecodeError::InvalidNormalizedValue { field: "front_right_wing", value: r.front_right_wing })
    }     else if !in_unit_interval(r.rear_wing.bits) {
        Some(DecodeError::InvalidNormalizedValue { field: "rear_wing", value: r.rear_wing })
    }     else if !in_unit_interval(r.floor.bits) {
        Some(DecodeError::InvalidNormalizedValue { field: "floor", value: r.floor })
    }     else if !in_unit_interval(r.diffuser.bits) {
        Some(DecodeError::InvalidNormalizedValue { field: "diffuser", value: r.diffuser })
    }     else if !in_unit_interval(r.sidepod.bits) {
        Some(DecodeError::InvalidNormalizedValue { field: "sidepod", value: r.sidepod })
    }     else if !in_unit_interval(r.gearbox.bits) {
        Some(DecodeError::InvalidNormalizedValue { field: "gearbox", value: r.gearbox })
    }     else if !in_unit_interval(r.engine.bits) {
        Some(DecodeError::InvalidNormalizedValue { field: "engine", value: r.engine })
    }     else if !in_unit_interval(r.engine_mguh_wear.bits) {
        Some(DecodeError::InvalidNormalizedValue { field: "engine_mguh_wear", value: r.engine_mguh_wear })
    }     else if !in_unit_interval(r.engine_es_wear.bits) {
        Some(DecodeError::InvalidNormalizedValue { field: "engine_es_wear", value: r.engine_es_wear })
    }     else if !in_unit_interval(r.engine_ce_wear.bits) {
        Some(DecodeError::InvalidNormalizedValue { field: "engine_ce_wear", value: r.engine_ce_wear })
    }     else if !in_unit_interval(r.engine_ice_wear.bits) {
        Some(DecodeError::InvalidNormalizedValue { field: "engine_ice_wear", value: r.engine_ice_wear })
    }     else if !in_unit_interval(r.engine_mguk_wear.bits) {
        Some(DecodeError::InvalidNormalizedValue { field: "engine_mguk_wear", value: r.engine_mguk_wear })
    }     else if !in_unit_interval(r.engine_tc_wear.bits) {
        Some(DecodeError::InvalidNormalizedValue { field: "engine_tc_wear", value: r.engine_tc_wear })
    } else {
        None
    }
}

/// The tyre corner a Car Damage packet reports, its ratios checked.
pub open spec fn damage_corner(wear: Real, damage: Real, brake: Real, blister: Option<Real>) -> TyreCornerState {
    TyreCornerState {
        surface_temperature_c: None,
        inner_temperature_c: None,
        pressure_pa: None,
        wear: Some(normalized_value(wear)),
        damage: Some(normalized_value(damage)),
        brake_damage: Some(normalized_value(brake)),
        blister: match blister {
            Some(b) => Some(normalized_value(b)),
            None => None,
        },
    }
}

fn corner_of_damage(
    wear: Real,
    damage: Real,
    brake: Real,
    blister: Option<Real>,
) -> (r: Result<TyreCornerState, DecodeError>)
    ensures
        match r {
            Ok(c) => in_unit_interval(wear.bits) && in_unit_interval(damage.bits) && in_unit_interval(brake.bits)
                && (blister matches Some(b) ==> in_unit_interval(b.bits)) && c == damage_corner(wear, damage, brake, blister),
            Err(e) => {
                ||| !in_unit_interval(wear.bits) && e == DecodeError::InvalidNormalizedValue { field: "tyre_wear", value: wear }
                ||| in_unit_interval(wear.bits) && !in_unit_interval(damage.bits)
                    && e == DecodeError::InvalidNormalizedValue { field: "tyre_damage", value: damage }
                ||| in_unit_interval(wear.bits) && in_unit_interval(damage.bits) && !in_unit_interval(brake.bits)
                    && e == DecodeError::InvalidNormalizedValue { field: "brake_damage", value: brake }
                ||| in_unit_interval(wear.bits) && in_unit_interval(damage.bits) && in_unit_interval(brake.bits)
                    && (blister matches Some(b) && !in_unit_interval(b.bits)
                    && e == DecodeError::InvalidNormalizedValue { field: "tyre_blister", value: b })
            },
        },
{
    let wear = normalized("tyre_wear", wear)?;
    let damage = normalized("tyre_damage", damage)?;
    let brake_damage = normalized("brake_damage", brake)?;
    let blister = match blister {
        Some(b) => Some(normalized("tyre_blister", b)?),
        None => None,
    };
    Ok(TyreCornerState {
        surface_temperature_c: None,
        inner_temperature_c: None,
        pressure_pa: None,
        wear: Some(wear),
        damage: Some(damage),
        brake_damage: Some(brake_damage),
        blister,
    })
}

/// The blister ratio of one corner, where the layout reports blisters.
pub open spec fn blister_at(b: Option<Corners<Real>>, corner: int) -> Option<Real> {
    match b {
        None => None,
        Some(c) => Some(if corner == 0 { c.rear_left } else if corner == 1 { c.rear_right } else if corner == 2 { c.front_left } else { c.front_right }),
    }
}

fn blister_of(b: Option<Corners<Real>>, corner: usize) -> (r: Option<Real>)
    ensures
        r == blister_at(b, corner as int),
{
    match b {
        None => None,
        Some(c) => Some(if corner == 0 { c.rear_left } else if corner == 1 { c.rear_right } else if corner == 2 { c.front_left } else { c.front_right }),
    }
}

/// Maps a Car Damage sample; every damage ratio must lie in the closed unit
/// interval.
pub fn map_damage_sample(
    header: &PacketHeader,
    sample: CarDamageSample,
    ratios: DamageRatios,
    received_at: MonotonicTimestamp,
) -> (r: Result<TelemetryUpdate, DecodeError>)
    ensures
        match r {
            Ok(u) => {
                &&& damage_ratio_error(ratios) is None
                &&& stamped_by(u, *header, received_at)
                &&& u.tyres == (TyreState {
                    rear_left: Some(damage_corner(ratios.wear.rear_left, ratios.tyre_damage.rear_left, ratios.brake_damage.rear_left, blister_at(ratios.blister, 0))),
                    rear_right: Some(damage_corner(ratios.wear.rear_right, ratios.tyre_damage.rear_right, ratios.brake_damage.rear_right, blister_at(ratios.blister, 1))),
                    front_left: Some(damage_corner(ratios.wear.front_left, ratios.tyre_damage.front_left, ratios.brake_damage.front_left, blister_at(ratios.blister, 2))),
                    front_right: Some(damage_corner(ratios.wear.front_right, ratios.tyre_damage.front_right, ratios.brake_damage.front_right, blister_at(ratios.blister, 3))),
                    ..TyreState::empty()
                })
                &&& u.damage == (DamageState {
                    front_left_wing: Some(normalized_value(ratios.front_left_wing)),
                    front_right_wing: Some(normalized_value(ratios.front_right_wing)),
                    rear_wing: Some(normalized_value(ratios.rear_wing)),
                    floor: Some(normalized_value(ratios.floor)),
                    diffuser: Some(normalized_value(ratios.diffuser)),
                    sidepod: Some(normalized_value(ratios.sidepod)),
                    gearbox: Some(normalized_value(ratios.gearbox)),
                    engine: Some(normalized_value(ratios.engine)),
                    engine_mguh_wear: Some(normalized_value(ratios.engine_mguh_wear)),
                    engine_es_wear: Some(normalized_value(ratios.engine_es_wear)),
                    engine_ce_wear: Some(normalized_value(ratios.engine_ce_wear)),
                    engine_ice_wear: Some(normalized_value(ratios.engine_ice_wear)),
                    engine_mguk_wear: Some(normalized_value(ratios.engine_mguk_wear)),
                    engine_tc_wear: Some(normalized_value(ratios.engine_tc_wear)),
                    drs_fault: Some(sample.drs_fault),
                    ers_fault: Some(sample.ers_fault),
                    engine_blown: Some(sample.engine_blown),
                    engine_seized: Some(sample.engine_seized),
                })
                &&& u.vehicle == VehicleUpdate::empty() && u.lap == LapState::empty()
                &&& u.session == SessionUpdate::empty() && u.conditions == ConditionsState::empty()
                &&& u.aero == AeroState::empty()
            },
            Err(e) => damage_ratio_error(ratios) == Some(e),
        },
{
    let rear_left = corner_of_damage(ratios.wear.rear_left, ratios.tyre_damage.rear_left, ratios.brake_damage.rear_left, blister_of(ratios.blister, 0))?;
    let rear_right = corner_of_damage(ratios.wear.rear_right, ratios.tyre_damage.rear_right, ratios.brake_damage.rear_right, blister_of(ratios.blister, 1))?;
    let front_left = corner_of_damage(ratios.wear.front_left, ratios.tyre_damage.front_left, ratios.brake_damage.front_left, blister_of(ratios.blister, 2))?;
    let front_right = corner_of_damage(ratios.wear.front_right, ratios.tyre_damage.front_right, ratios.brake_damage.front_right, blister_of(ratios.blister, 3))?;
    let front_left_wing = normalized("front_left_wing", ratios.front_left_wing)?;
    let front_right_wing = normalized("front_right_wing", ratios.front_right_wing)?;
    let rear_wing = normalized("rear_wing", ratios.rear_wing)?;
    let floor = normalized("floor", ratios.floor)?;
    let diffuser = normalized("diffuser", ratios.diffuser)?;
    let sidepod = normalized("sidepod", ratios.sidepod)?;
    let gearbox = normalized("gearbox", ratios.gearbox)?;
    let engine = normalized("engine", ratios.engine)?;
    let engine_mguh_wear = normalized("engine_mguh_wear", ratios.engine_mguh_wear)?;
    let engine_es_wear = normalized("engine_es_wear", ratios.engine_es_wear)?;
    let engine_ce_wear = normalized("engine_ce_wear", ratios.engine_ce_wear)?;
    let engine_ice_wear = normalized("engine_ice_wear", ratios.engine_ice_wear)?;
    let engine_mguk_wear = normalized("engine_mguk_wear", ratios.engine_mguk_wear)?;
    let engine_tc_wear = normalized("engine_tc_wear", ratios.engine_tc_wear)?;
    let mut u = stamped_update(header, received_at);
    u.tyres.rear_left = Some(rear_left);
    u.tyres.rear_right = Some(rear_right);
    u.tyres.front_left = Some(front_left);
    u.tyres.front_right = Some(front_right);
    u.damage = DamageState {
        front_left_wing: Some(front_left_wing),
        front_right_wing: Some(front_right_wing),
        rear_wing: Some(rear_wing),
        floor: Some(floor),
        diffuser: Some(diffuser),
        sidepod: Some(sidepod),
        gearbox: Some(gearbox),
        engine: Some(engine),
        engine_mguh_wear: Some(engine_mguh_wear),
        engine_es_wear: Some(engine_es_wear),
        engine_ce_wear: Some(engine_ce_wear),
        engine_ice_wear: Some(engine_ice_wear),
        engine_mguk_wear: Some(engine_mguk_wear),
        engine_tc_wear: Some(engine_tc_wear),
        drs_fault: Some(sample.drs_fault),
        ers_fault: Some(sample.ers_fault),
        engine_blown: Some(sample.engine_blown),
        engine_seized: Some(sample.engine_seized),
    };
    Ok(u)
}

} // verus!
