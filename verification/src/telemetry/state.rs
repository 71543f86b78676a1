use vstd::prelude::*;

use super::model::{
    ActiveAeroMode, DriverStatus, DrsState, Gear, MonotonicTimestamp, Normalized, PitStatus,
    RaceFlag, Real, ResultStatus, SafetyCarStatus, WeatherCondition,
};

verus! {

/// Metadata attached to every complete telemetry snapshot.
#[derive(Debug, Clone, PartialEq)]
pub struct Meta {
    /// Schema version used by this snapshot.
    pub schema_version: u16,
    /// Stable adapter identifier, such as `f1-24`.
    pub game_id: Option<String>,
    /// Opaque identifier for the active game session.
    pub session_id: Option<String>,
    /// Monotonic snapshot sequence assigned by the core.
    pub sequence: u64,
    /// Time at which the newest contributing datagram reached the Host.
    pub captured_at: Option<MonotonicTimestamp>,
}

/// Current player-vehicle state in standard units.
#[derive(Debug, Clone, Copy, PartialEq, Eq, Structural)]
pub struct VehicleState {
    /// Vehicle speed in metres per second.
    pub speed_mps: Option<Real>,
    /// Selected gear.
    pub gear: Gear,
    /// Current engine revolutions per minute.
    pub rpm: Option<u16>,
    /// Maximum engine revolutions per minute used for display scaling.
    pub rpm_max: Option<u16>,
    /// Game-provided shift-light progression in the inclusive unit interval.
    pub rev_lights: Option<Normalized>,
    /// Accelerator input in the inclusive unit interval.
    pub throttle: Option<Normalized>,
    /// Brake input in the inclusive unit interval.
    pub brake: Option<Normalized>,
    /// Driver-reduction-system state.
    pub drs: DrsState,
    /// Remaining fuel mass in kilograms.
    pub fuel_kg: Option<Real>,
    /// Fuel-tank capacity in kilograms when the game reports fuel by mass.
    pub fuel_capacity_kg: Option<Real>,
    /// Estimated laps remaining on the current fuel load.
    pub fuel_remaining_laps: Option<Real>,
    /// Remaining fuel volume in litres.
    pub fuel_liters: Option<Real>,
    /// Fuel-tank capacity in litres.
    pub fuel_capacity_liters: Option<Real>,
    /// Estimated remaining fuel range in kilometres.
    pub fuel_range_km: Option<Real>,
    /// Whether the game is showing a low-fuel warning.
    pub fuel_warning: Option<bool>,
    /// Whether the pit-lane speed limiter is active.
    pub pit_limiter: Option<bool>,
    /// Available electrical energy in joules.
    pub ers_energy_j: Option<Real>,
}

/// Current lap and race-position state.
#[derive(Debug, Clone, Copy, PartialEq, Eq, Structural)]
pub struct LapState {
    /// Current one-based lap number.
    pub current: Option<u16>,
    /// Current one-based race position.
    pub position: Option<u8>,
    /// Elapsed current-lap time in milliseconds.
    pub current_time_ms: Option<u32>,
    /// Previous completed-lap time in milliseconds.
    pub last_time_ms: Option<u32>,
    /// Signed delta to the relevant best lap in milliseconds.
    pub delta_to_best_ms: Option<i32>,
    /// Whether the current lap has been invalidated.
    pub invalid: Option<bool>,
    /// Current one-based sector number.
    pub sector: Option<u8>,
    /// Completed sector-one time in milliseconds.
    pub sector1_time_ms: Option<u32>,
    /// Completed sector-two time in milliseconds.
    pub sector2_time_ms: Option<u32>,
    /// Delta to the car immediately ahead in milliseconds.
    pub delta_to_car_in_front_ms: Option<u32>,
    /// Delta to the race leader in milliseconds.
    pub delta_to_race_leader_ms: Option<u32>,
    /// Distance around the current lap in metres.
    pub distance_m: Option<Real>,
    /// Total distance travelled in the session in metres.
    pub total_distance_m: Option<Real>,
    /// Signed safety-car delta in milliseconds.
    pub safety_car_delta_ms: Option<i32>,
    /// Current pit state.
    pub pit_status: Option<PitStatus>,
    /// Pit stops completed in the current race.
    pub pit_stops: Option<u8>,
    /// Accumulated time penalties in seconds.
    pub penalties_seconds: Option<u8>,
    /// Accumulated warnings.
    pub warnings: Option<u8>,
    /// Accumulated corner-cutting warnings.
    pub corner_cutting_warnings: Option<u8>,
    /// Unserved drive-through penalties.
    pub unserved_drive_through_penalties: Option<u8>,
    /// Unserved stop-go penalties.
    pub unserved_stop_go_penalties: Option<u8>,
    /// Starting grid position.
    pub grid_position: Option<u8>,
    /// Current driver activity.
    pub driver_status: Option<DriverStatus>,
    /// Current classification state.
    pub result_status: Option<ResultStatus>,
    /// Time spent in the pit lane in milliseconds.
    pub pit_lane_time_ms: Option<u32>,
    /// Current pit-stop time in milliseconds.
    pub pit_stop_time_ms: Option<u32>,
    /// Whether a penalty should be served during the current pit stop.
    pub pit_stop_should_serve_penalty: Option<bool>,
}

/// Current session state that is meaningful across games.
#[derive(Debug, Clone, PartialEq)]
pub struct SessionState {
    /// Stable game-provided or mapped track identifier.
    pub track_id: Option<String>,
    /// Remaining session time in milliseconds.
    pub remaining_time_ms: Option<u64>,
    /// Scheduled total number of laps when known.
    pub total_laps: Option<u16>,
    /// Human-readable stable session type, such as `race` or `qualifying_1`.
    pub session_type: Option<String>,
    /// Track length in metres.
    pub track_length_m: Option<u32>,
    /// Pit-lane speed limit in metres per second.
    pub pit_speed_limit_mps: Option<Real>,
    /// Current safety-car state.
    pub safety_car_status: Option<SafetyCarStatus>,
    /// Current race-control flag for the player vehicle.
    pub race_flag: Option<RaceFlag>,
}

/// State for one tyre corner.
#[derive(Debug, Clone, Copy, PartialEq, Eq, Structural)]
pub struct TyreCornerState {
    /// Tyre surface temperature in degrees Celsius.
    pub surface_temperature_c: Option<Real>,
    /// Tyre inner temperature in degrees Celsius.
    pub inner_temperature_c: Option<Real>,
    /// Tyre pressure in pascals.
    pub pressure_pa: Option<Real>,
    /// Tyre wear in the inclusive unit interval.
    pub wear: Option<Normalized>,
    /// Tyre damage in the inclusive unit interval.
    pub damage: Option<Normalized>,
    /// Brake damage at this corner in the inclusive unit interval.
    pub brake_damage: Option<Normalized>,
    /// Tyre blistering in the inclusive unit interval.
    pub blister: Option<Normalized>,
}

/// State for all four tyre corners.
#[derive(Debug, Clone, Copy, PartialEq, Eq, Structural)]
pub struct TyreState {
    /// Front-left tyre.
    pub front_left: Option<TyreCornerState>,
    /// Front-right tyre.
    pub front_right: Option<TyreCornerState>,
    /// Rear-left tyre.
    pub rear_left: Option<TyreCornerState>,
    /// Rear-right tyre.
    pub rear_right: Option<TyreCornerState>,
    /// Game-defined actual compound identifier.
    pub actual_compound: Option<u8>,
    /// Game-defined visual compound identifier.
    pub visual_compound: Option<u8>,
    /// Age of the fitted tyre set in laps.
    pub age_laps: Option<u8>,
}

/// Current ambient and track conditions.
#[derive(Debug, Clone, Copy, PartialEq, Eq, Structural)]
pub struct ConditionsState {
    /// Current weather category.
    pub weather: Option<WeatherCondition>,
    /// Track temperature in degrees Celsius.
    pub track_temperature_c: Option<Real>,
    /// Air temperature in degrees Celsius.
    pub air_temperature_c: Option<Real>,
}

/// Player-vehicle damage not naturally represented by one tyre corner.
#[derive(Debug, Clone, Copy, PartialEq, Eq, Structural)]
pub struct DamageState {
    /// Front-left wing damage.
    pub front_left_wing: Option<Normalized>,
    /// Front-right wing damage.
    pub front_right_wing: Option<Normalized>,
    /// Rear-wing damage.
    pub rear_wing: Option<Normalized>,
    /// Floor damage.
    pub floor: Option<Normalized>,
    /// Diffuser damage.
    pub diffuser: Option<Normalized>,
    /// Sidepod damage.
    pub sidepod: Option<Normalized>,
    /// Gearbox damage.
    pub gearbox: Option<Normalized>,
    /// Overall engine damage.
    pub engine: Option<Normalized>,
    /// MGU-H wear.
    pub engine_mguh_wear: Option<Normalized>,
    /// Energy-store wear.
    pub engine_es_wear: Option<Normalized>,
    /// Control-electronics wear.
    pub engine_ce_wear: Option<Normalized>,
    /// Internal-combustion-engine wear.
    pub engine_ice_wear: Option<Normalized>,
    /// MGU-K wear.
    pub engine_mguk_wear: Option<Normalized>,
    /// Turbocharger wear.
    pub engine_tc_wear: Option<Normalized>,
    /// DRS system fault state.
    pub drs_fault: Option<bool>,
    /// ERS system fault state.
    pub ers_fault: Option<bool>,
    /// Whether the engine has blown.
    pub engine_blown: Option<bool>,
    /// Whether the engine has seized.
    pub engine_seized: Option<bool>,
}

/// 2026 active-aerodynamics and overtake state.
#[derive(Debug, Clone, Copy, PartialEq, Eq, Structural)]
pub struct AeroState {
    /// Current active-aero mode.
    pub mode: Option<ActiveAeroMode>,
    /// Whether active aero is currently available.
    pub available: Option<bool>,
    /// Distance until active aero becomes available in metres.
    pub activation_distance_m: Option<u32>,
    /// Whether overtake mode is available.
    pub overtake_available: Option<bool>,
    /// Whether overtake mode is active.
    pub overtake_active: Option<bool>,
    /// Distance until overtake mode becomes available in metres.
    pub overtake_activation_distance_m: Option<u32>,
    /// Whether the car uses the 2026 regulations.
    pub regulations_2026: Option<bool>,
    /// Whether the game reports the car is driving the wrong way.
    pub driving_wrong_way: Option<bool>,
}

/// Route-advisor state for truck simulators.
#[derive(Debug, Clone, Copy, PartialEq, Eq, Structural)]
pub struct NavigationState {
    /// Remaining route distance in metres.
    pub distance_m: Option<Real>,
    /// Estimated route time in seconds.
    pub time_s: Option<Real>,
    /// Current navigation speed limit in metres per second.
    pub speed_limit_mps: Option<Real>,
}

/// Exterior-light state for truck simulators.
#[derive(Debug, Clone, Copy, PartialEq, Eq, Structural)]
pub struct LightsState {
    /// Parking lights.
    pub parking: Option<bool>,
    /// Low-beam headlights.
    pub low_beam: Option<bool>,
    /// High-beam headlights.
    pub high_beam: Option<bool>,
    /// Beacon lights.
    pub beacon: Option<bool>,
    /// Brake lights.
    pub brake: Option<bool>,
    /// Reverse lights.
    pub reverse: Option<bool>,
    /// Logical left indicator state.
    pub left_indicator: Option<bool>,
    /// Logical right indicator state.
    pub right_indicator: Option<bool>,
    /// Hazard-warning state.
    pub hazard: Option<bool>,
}

/// Active truck-delivery job.
#[derive(Debug, Clone, PartialEq)]
pub struct JobState {
    /// Whether a job is active.
    pub active: Option<bool>,
    /// Localized cargo name.
    pub cargo: Option<String>,
    /// Cargo mass in kilograms.
    pub cargo_mass_kg: Option<Real>,
    /// Localized source city.
    pub source_city: Option<String>,
    /// Localized destination city.
    pub destination_city: Option<String>,
    /// Expected income in the game's native currency.
    pub income: Option<u64>,
    /// Absolute in-game delivery deadline.
    pub delivery_time: Option<u32>,
    /// Planned distance in simulated kilometres.
    pub planned_distance_km: Option<u32>,
    /// Whether cargo is loaded.
    pub cargo_loaded: Option<bool>,
    /// Whether this is a special-transport job.
    pub special: Option<bool>,
}

/// A value keyed by the adapter id (namespace) that owns it.
#[derive(Debug, Clone, PartialEq)]
pub struct Namespaced<V> {
    /// Adapter id used as the namespace.
    pub namespace: String,
    /// The value owned by that namespace.
    pub value: V,
}

/// One adapter-specific JSON value, held as its compact JSON text.
pub type ExtensionEntry = Namespaced<String>;

/// A complete, game-neutral view of the latest known telemetry state.
#[derive(Debug, Clone, PartialEq)]
pub struct TelemetrySnapshot {
    /// Snapshot metadata.
    pub meta: Meta,
    /// Player-vehicle state.
    pub vehicle: VehicleState,
    /// Lap and race-position state.
    pub lap: LapState,
    /// Session state.
    pub session: SessionState,
    /// Four-corner tyre state.
    pub tyres: TyreState,
    /// Ambient and track conditions.
    pub conditions: ConditionsState,
    /// Player-vehicle damage.
    pub damage: DamageState,
    /// Active-aerodynamics state.
    pub aero: AeroState,
    /// Route-advisor state.
    pub navigation: NavigationState,
    /// Exterior-light state.
    pub lights: LightsState,
    /// Active delivery job.
    pub job: JobState,
    /// Adapter-specific values, at most one per namespace.
    pub extensions: Vec<ExtensionEntry>,
}

/// A discrete telemetry fact that must not be treated as replaceable state.
#[derive(Debug, PartialEq)]
pub struct TelemetryEvent {
    /// Stable dotted event name, such as `lap.completed`.
    pub name: String,
    /// Host-monotonic time at which the event was observed.
    pub occurred_at: MonotonicTimestamp,
    /// Event-specific structured data.
    pub data: serde_json::Value,
}

/// Partial player-vehicle state emitted by an adapter.
#[derive(Debug, Clone, Copy, PartialEq, Eq, Structural)]
pub struct VehicleUpdate {
    /// New speed when this packet updates speed.
    pub speed_mps: Option<Real>,
    /// New gear when this packet updates gear.
    pub gear: Option<Gear>,
    /// New engine speed when this packet updates engine speed.
    pub rpm: Option<u16>,
    /// New maximum engine speed when supplied.
    pub rpm_max: Option<u16>,
    /// New shift-light progression when supplied.
    pub rev_lights: Option<Normalized>,
    /// New accelerator input when supplied.
    pub throttle: Option<Normalized>,
    /// New brake input when supplied.
    pub brake: Option<Normalized>,
    /// New DRS state when supplied.
    pub drs: Option<DrsState>,
    /// New fuel mass when supplied.
    pub fuel_kg: Option<Real>,
    /// New fuel capacity by mass when supplied.
    pub fuel_capacity_kg: Option<Real>,
    /// New estimated remaining laps on fuel when supplied.
    pub fuel_remaining_laps: Option<Real>,
    /// New fuel volume when supplied.
    pub fuel_liters: Option<Real>,
    /// New fuel capacity by volume when supplied.
    pub fuel_capacity_liters: Option<Real>,
    /// New estimated fuel range when supplied.
    pub fuel_range_km: Option<Real>,
    /// New low-fuel warning state when supplied.
    pub fuel_warning: Option<bool>,
    /// New pit-limiter state when supplied.
    pub pit_limiter: Option<bool>,
    /// New electrical energy level when supplied.
    pub ers_energy_j: Option<Real>,
}

/// Partial lap state emitted by an adapter; every field is optional.
pub type LapUpdate = LapState;

/// Partial four-corner tyre state emitted by an adapter; every field is optional.
pub type TyreUpdate = TyreState;

/// Partial session state emitted by an adapter.
#[derive(Debug, Clone, PartialEq)]
pub struct SessionUpdate {
    /// New track identifier when supplied.
    pub track_id: Option<String>,
    /// New remaining session time when supplied.
    pub remaining_time_ms: Option<u64>,
    /// New scheduled total lap count when supplied.
    pub total_laps: Option<u16>,
    /// New session type when supplied.
    pub session_type: Option<String>,
    /// New track length when supplied.
    pub track_length_m: Option<u32>,
    /// New pit-lane speed limit when supplied.
    pub pit_speed_limit_mps: Option<Real>,
    /// New safety-car state when supplied.
    pub safety_car_status: Option<SafetyCarStatus>,
    /// New player race flag when supplied.
    pub race_flag: Option<RaceFlag>,
}

/// Partial game-neutral state emitted after decoding one game datagram.
#[derive(Debug, Clone, PartialEq)]
pub struct TelemetryUpdate {
    /// Host-monotonic time at which the datagram was received.
    pub received_at: MonotonicTimestamp,
    /// New game session identifier when known.
    pub session_id: Option<String>,
    /// Game-provided frame identifier when known.
    pub frame_id: Option<u32>,
    /// Partial player-vehicle update.
    pub vehicle: VehicleUpdate,
    /// Partial lap update.
    pub lap: LapUpdate,
    /// Partial session update.
    pub session: SessionUpdate,
    /// Partial tyre update.
    pub tyres: TyreUpdate,
    /// Partial ambient-condition update.
    pub conditions: ConditionsState,
    /// Partial damage update.
    pub damage: DamageState,
    /// Partial active-aerodynamics update.
    pub aero: AeroState,
    /// Partial route-advisor update.
    pub navigation: NavigationState,
    /// Partial exterior-light update.
    pub lights: LightsState,
    /// Partial delivery-job update.
    pub job: JobState,
    /// Adapter-specific partial values, at most one per namespace.
    pub extensions: Vec<ExtensionEntry>,
}

} // verus!
