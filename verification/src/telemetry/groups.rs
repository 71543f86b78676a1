use vstd::prelude::*;

use super::frames::{
    accepts, admits, merged, merged_text, merged_value, offer_optional, offer_text, offer_value,
    should_apply, stamped, stamped_below,
};
use super::state::{
    AeroState, ConditionsState, DamageState, JobState, LapState, LapUpdate, LightsState,
    NavigationState, SessionState, SessionUpdate, TyreCornerState, TyreState, TyreUpdate,
    VehicleState, VehicleUpdate,
};

verus! {

/// Number of tracked field slots in a snapshot.
pub const SLOT_COUNT: usize = 134;

/// First slot of the vehicle fields; slots follow field declaration order.
pub const VEHICLE_SLOT: usize = 0;

/// First slot of the lap fields.
pub const LAP_SLOT: usize = 17;

/// First slot of the session fields.
pub const SESSION_SLOT: usize = 44;

/// First slot of the front-left tyre fields; the other corners follow in
/// front-right, rear-left, rear-right order, then the compound fields.
pub const TYRES_SLOT: usize = 52;

/// Number of slots per tyre corner.
pub const CORNER_SLOTS: usize = 7;

/// First slot of the tyre compound and age fields.
pub const COMPOUND_SLOT: usize = 80;

/// First slot of the condition fields.
pub const CONDITIONS_SLOT: usize = 83;

/// First slot of the damage fields.
pub const DAMAGE_SLOT: usize = 86;

/// First slot of the aero fields.
pub const AERO_SLOT: usize = 104;

/// First slot of the navigation fields.
pub const NAVIGATION_SLOT: usize = 112;

/// First slot of the light fields.
pub const LIGHTS_SLOT: usize = 115;

/// Slot of the job's `active` flag; the job details follow it.
pub const JOB_SLOT: usize = 124;

/// The vehicle state after offering a vehicle update, judged against frames `f`.
pub open spec fn vehicle_after(s: VehicleState, u: VehicleUpdate, f: Seq<Option<u32>>, fr: Option<u32>) -> VehicleState {
    VehicleState {
        speed_mps: merged(f, 0, s.speed_mps, u.speed_mps, fr),
        gear: merged_value(f, 1, s.gear, u.gear, fr),
        rpm: merged(f, 2, s.rpm, u.rpm, fr),
        rpm_max: merged(f, 3, s.rpm_max, u.rpm_max, fr),
        rev_lights: merged(f, 4, s.rev_lights, u.rev_lights, fr),
        throttle: merged(f, 5, s.throttle, u.throttle, fr),
        brake: merged(f, 6, s.brake, u.brake, fr),
        drs: merged_value(f, 7, s.drs, u.drs, fr),
        fuel_kg: merged(f, 8, s.fuel_kg, u.fuel_kg, fr),
        fuel_capacity_kg: merged(f, 9, s.fuel_capacity_kg, u.fuel_capacity_kg, fr),
        fuel_remaining_laps: merged(f, 10, s.fuel_remaining_laps, u.fuel_remaining_laps, fr),
        fuel_liters: merged(f, 11, s.fuel_liters, u.fuel_liters, fr),
        fuel_capacity_liters: merged(f, 12, s.fuel_capacity_liters, u.fuel_capacity_liters, fr),
        fuel_range_km: merged(f, 13, s.fuel_range_km, u.fuel_range_km, fr),
        fuel_warning: merged(f, 14, s.fuel_warning, u.fuel_warning, fr),
        pit_limiter: merged(f, 15, s.pit_limiter, u.pit_limiter, fr),
        ers_energy_j: merged(f, 16, s.ers_energy_j, u.ers_energy_j, fr),
    }
}

/// Whether the vehicle update supplies a value for slot `i`.
pub open spec fn vehicle_offers(u: VehicleUpdate, i: int) -> bool {
    ||| i == 0 && u.speed_mps is Some
    ||| i == 1 && u.gear is Some
    ||| i == 2 && u.rpm is Some
    ||| i == 3 && u.rpm_max is Some
    ||| i == 4 && u.rev_lights is Some
    ||| i == 5 && u.throttle is Some
    ||| i == 6 && u.brake is Some
    ||| i == 7 && u.drs is Some
    ||| i == 8 && u.fuel_kg is Some
    ||| i == 9 && u.fuel_capacity_kg is Some
    ||| i == 10 && u.fuel_remaining_laps is Some
    ||| i == 11 && u.fuel_liters is Some
    ||| i == 12 && u.fuel_capacity_liters is Some
    ||| i == 13 && u.fuel_range_km is Some
    ||| i == 14 && u.fuel_warning is Some
    ||| i == 15 && u.pit_limiter is Some
    ||| i == 16 && u.ers_energy_j is Some
}


/// Offers every supplied vehicle value to its field, in slot order.
pub fn apply_vehicle(
    frames: &mut Vec<Option<u32>>,
    target: &mut VehicleState,
    u: VehicleUpdate,
    frame: Option<u32>,
    Ghost(start): Ghost<Seq<Option<u32>>>,
    Ghost(offered): Ghost<spec_fn(int) -> bool>,
) -> (changed: bool)
    requires
        start.len() == SLOT_COUNT,
        old(frames)@ == stamped_below(start, offered, frame, 0),
        forall|i: int| 0 <= i < 17 ==> #[trigger] offered(i) == vehicle_offers(u, i),
    ensures
        changed == (*final(target) != *old(target)),
        *final(target) == vehicle_after(*old(target), u, start, frame),
        final(frames)@ == stamped_below(start, offered, frame, 17),
{
    let mut changed = false;
    changed = offer_optional(frames, &mut target.speed_mps, u.speed_mps, 0, frame, Ghost(start), Ghost(offered))
        || changed;
    changed = offer_value(frames, &mut target.gear, u.gear, 1, frame, Ghost(start), Ghost(offered))
        || changed;
    changed = offer_optional(frames, &mut target.rpm, u.rpm, 2, frame, Ghost(start), Ghost(offered))
        || changed;
    changed = offer_optional(frames, &mut target.rpm_max, u.rpm_max, 3, frame, Ghost(start), Ghost(offered))
        || changed;
    changed = offer_optional(frames, &mut target.rev_lights, u.rev_lights, 4, frame, Ghost(start), Ghost(offered))
        || changed;
    changed = offer_optional(frames, &mut target.throttle, u.throttle, 5, frame, Ghost(start), Ghost(offered))
        || changed;
    changed = offer_optional(frames, &mut target.brake, u.brake, 6, frame, Ghost(start), Ghost(offered))
        || changed;
    changed = offer_value(frames, &mut target.drs, u.drs, 7, frame, Ghost(start), Ghost(offered))
        || changed;
    changed = offer_optional(frames, &mut target.fuel_kg, u.fuel_kg, 8, frame, Ghost(start), Ghost(offered))
        || changed;
    changed = offer_optional(frames, &mut target.fuel_capacity_kg, u.fuel_capacity_kg, 9, frame, Ghost(start), Ghost(offered))
        || changed;
    changed = offer_optional(frames, &mut target.fuel_remaining_laps, u.fuel_remaining_laps, 10, frame, Ghost(start), Ghost(offered))
        || changed;
    changed = offer_optional(frames, &mut target.fuel_liters, u.fuel_liters, 11, frame, Ghost(start), Ghost(offered))
        || changed;
    changed = offer_optional(frames, &mut target.fuel_capacity_liters, u.fuel_capacity_liters, 12, frame, Ghost(start), Ghost(offered))
        || changed;
    changed = offer_optional(frames, &mut target.fuel_range_km, u.fuel_range_km, 13, frame, Ghost(start), Ghost(offered))
        || changed;
    changed = offer_optional(frames, &mut target.fuel_warning, u.fuel_warning, 14, frame, Ghost(start), Ghost(offered))
        || changed;
    changed = offer_optional(frames, &mut target.pit_limiter, u.pit_limiter, 15, frame, Ghost(start), Ghost(offered))
        || changed;
    changed = offer_optional(frames, &mut target.ers_energy_j, u.ers_energy_j, 16, frame, Ghost(start), Ghost(offered))
        || changed;
    changed
}

/// The lap state after offering a lap update, judged against frames `f`.
pub open spec fn lap_after(s: LapState, u: LapUpdate, f: Seq<Option<u32>>, fr: Option<u32>) -> LapState {
    LapState {
        current: merged(f, 17, s.current, u.current, fr),
        position: merged(f, 18, s.position, u.position, fr),
        current_time_ms: merged(f, 19, s.current_time_ms, u.current_time_ms, fr),
        last_time_ms: merged(f, 20, s.last_time_ms, u.last_time_ms, fr),
        delta_to_best_ms: merged(f, 21, s.delta_to_best_ms, u.delta_to_best_ms, fr),
        invalid: merged(f, 22, s.invalid, u.invalid, fr),
        sector: merged(f, 23, s.sector, u.sector, fr),
        sector1_time_ms: merged(f, 24, s.sector1_time_ms, u.sector1_time_ms, fr),
        sector2_time_ms: merged(f, 25, s.sector2_time_ms, u.sector2_time_ms, fr),
        delta_to_car_in_front_ms: merged(f, 26, s.delta_to_car_in_front_ms, u.delta_to_car_in_front_ms, fr),
        delta_to_race_leader_ms: merged(f, 27, s.delta_to_race_leader_ms, u.delta_to_race_leader_ms, fr),
        distance_m: merged(f, 28, s.distance_m, u.distance_m, fr),
        total_distance_m: merged(f, 29, s.total_distance_m, u.total_distance_m, fr),
        safety_car_delta_ms: merged(f, 30, s.safety_car_delta_ms, u.safety_car_delta_ms, fr),
        pit_status: merged(f, 31, s.pit_status, u.pit_status, fr),
        pit_stops: merged(f, 32, s.pit_stops, u.pit_stops, fr),
        penalties_seconds: merged(f, 33, s.penalties_seconds, u.penalties_seconds, fr),
        warnings: merged(f, 34, s.warnings, u.warnings, fr),
        corner_cutting_warnings: merged(f, 35, s.corner_cutting_warnings, u.corner_cutting_warnings, fr),
        unserved_drive_through_penalties: merged(f, 36, s.unserved_drive_through_penalties, u.unserved_drive_through_penalties, fr),
        unserved_stop_go_penalties: merged(f, 37, s.unserved_stop_go_penalties, u.unserved_stop_go_penalties, fr),
        grid_position: merged(f, 38, s.grid_position, u.grid_position, fr),
        driver_status: merged(f, 39, s.driver_status, u.driver_status, fr),
        result_status: merged(f, 40, s.result_status, u.result_status, fr),
        pit_lane_time_ms: merged(f, 41, s.pit_lane_time_ms, u.pit_lane_time_ms, fr),
        pit_stop_time_ms: merged(f, 42, s.pit_stop_time_ms, u.pit_stop_time_ms, fr),
        pit_stop_should_serve_penalty: merged(f, 43, s.pit_stop_should_serve_penalty, u.pit_stop_should_serve_penalty, fr),
    }
}

/// Whether the lap update supplies a value for slot `i`.
pub open spec fn lap_offers(u: LapUpdate, i: int) -> bool {
    ||| i == 17 && u.current is Some
    ||| i == 18 && u.position is Some
    ||| i == 19 && u.current_time_ms is Some
    ||| i == 20 && u.last_time_ms is Some
    ||| i == 21 && u.delta_to_best_ms is Some
    ||| i == 22 && u.invalid is Some
    ||| i == 23 && u.sector is Some
    ||| i == 24 && u.sector1_time_ms is Some
    ||| i == 25 && u.sector2_time_ms is Some
    ||| i == 26 && u.delta_to_car_in_front_ms is Some
    ||| i == 27 && u.delta_to_race_leader_ms is Some
    ||| i == 28 && u.distance_m is Some
    ||| i == 29 && u.total_distance_m is Some
    ||| i == 30 && u.safety_car_delta_ms is Some
    ||| i == 31 && u.pit_status is Some
    ||| i == 32 && u.pit_stops is Some
    ||| i == 33 && u.penalties_seconds is Some
    ||| i == 34 && u.warnings is Some
    ||| i == 35 && u.corner_cutting_warnings is Some
    ||| i == 36 && u.unserved_drive_through_penalties is Some
    ||| i == 37 && u.unserved_stop_go_penalties is Some
    ||| i == 38 && u.grid_position is Some
    ||| i == 39 && u.driver_status is Some
    ||| i == 40 && u.result_status is Some
    ||| i == 41 && u.pit_lane_time_ms is Some
    ||| i == 42 && u.pit_stop_time_ms is Some
    ||| i == 43 && u.pit_stop_should_serve_penalty is Some
}


/// Offers every supplied lap value to its field, in slot order.
pub fn apply_lap(
    frames: &mut Vec<Option<u32>>,
    target: &mut LapState,
    u: LapUpdate,
    frame: Option<u32>,
    Ghost(start): Ghost<Seq<Option<u32>>>,
    Ghost(offered): Ghost<spec_fn(int) -> bool>,
) -> (changed: bool)
    requires
        start.len() == SLOT_COUNT,
        old(frames)@ == stamped_below(start, offered, frame, 17),
        forall|i: int| 17 <= i < 44 ==> #[trigger] offered(i) == lap_offers(u, i),
    ensures
        changed == (*final(target) != *old(target)),
        *final(target) == lap_after(*old(target), u, start, frame),
        final(frames)@ == stamped_below(start, offered, frame, 44),
{
    let mut changed = false;
    changed = offer_optional(frames, &mut target.current, u.current, 17, frame, Ghost(start), Ghost(offered))
        || changed;
    changed = offer_optional(frames, &mut target.position, u.position, 18, frame, Ghost(start), Ghost(offered))
        || changed;
    changed = offer_optional(frames, &mut target.current_time_ms, u.current_time_ms, 19, frame, Ghost(start), Ghost(offered))
        || changed;
    changed = offer_optional(frames, &mut target.last_time_ms, u.last_time_ms, 20, frame, Ghost(start), Ghost(offered))
        || changed;
    changed = offer_optional(frames, &mut target.delta_to_best_ms, u.delta_to_best_ms, 21, frame, Ghost(start), Ghost(offered))
        || changed;
    changed = offer_optional(frames, &mut target.invalid, u.invalid, 22, frame, Ghost(start), Ghost(offered))
        || changed;
    changed = offer_optional(frames, &mut target.sector, u.sector, 23, frame, Ghost(start), Ghost(offered))
        || changed;
    changed = offer_optional(frames, &mut target.sector1_time_ms, u.sector1_time_ms, 24, frame, Ghost(start), Ghost(offered))
        || changed;
    changed = offer_optional(frames, &mut target.sector2_time_ms, u.sector2_time_ms, 25, frame, Ghost(start), Ghost(offered))
        || changed;
    changed = offer_optional(frames, &mut target.delta_to_car_in_front_ms, u.delta_to_car_in_front_ms, 26, frame, Ghost(start), Ghost(offered))
        || changed;
    changed = offer_optional(frames, &mut target.delta_to_race_leader_ms, u.delta_to_race_leader_ms, 27, frame, Ghost(start), Ghost(offered))
        || changed;
    changed = offer_optional(frames, &mut target.distance_m, u.distance_m, 28, frame, Ghost(start), Ghost(offered))
        || changed;
    changed = offer_optional(frames, &mut target.total_distance_m, u.total_distance_m, 29, frame, Ghost(start), Ghost(offered))
        || changed;
    changed = offer_optional(frames, &mut target.safety_car_delta_ms, u.safety_car_delta_ms, 30, frame, Ghost(start), Ghost(offered))
        || changed;
    changed = offer_optional(frames, &mut target.pit_status, u.pit_status, 31, frame, Ghost(start), Ghost(offered))
        || changed;
    changed = offer_optional(frames, &mut target.pit_stops, u.pit_stops, 32, frame, Ghost(start), Ghost(offered))
        || changed;
    changed = offer_optional(frames, &mut target.penalties_seconds, u.penalties_seconds, 33, frame, Ghost(start), Ghost(offered))
        || changed;
    changed = offer_optional(frames, &mut target.warnings, u.warnings, 34, frame, Ghost(start), Ghost(offered))
        || changed;
    changed = offer_optional(frames, &mut target.corner_cutting_warnings, u.corner_cutting_warnings, 35, frame, Ghost(start), Ghost(offered))
        || changed;
    changed = offer_optional(frames, &mut target.unserved_drive_through_penalties, u.unserved_drive_through_penalties, 36, frame, Ghost(start), Ghost(offered))
        || changed;
    changed = offer_optional(frames, &mut target.unserved_stop_go_penalties, u.unserved_stop_go_penalties, 37, frame, Ghost(start), Ghost(offered))
        || changed;
    changed = offer_optional(frames, &mut target.grid_position, u.grid_position, 38, frame, Ghost(start), Ghost(offered))
        || changed;
    changed = offer_optional(frames, &mut target.driver_status, u.driver_status, 39, frame, Ghost(start), Ghost(offered))
        || changed;
    changed = offer_optional(frames, &mut target.result_status, u.result_status, 40, frame, Ghost(start), Ghost(offered))
        || changed;
    changed = offer_optional(frames, &mut target.pit_lane_time_ms, u.pit_lane_time_ms, 41, frame, Ghost(start), Ghost(offered))
        || changed;
    changed = offer_optional(frames, &mut target.pit_stop_time_ms, u.pit_stop_time_ms, 42, frame, Ghost(start), Ghost(offered))
        || changed;
    changed = offer_optional(frames, &mut target.pit_stop_should_serve_penalty, u.pit_stop_should_serve_penalty, 43, frame, Ghost(start), Ghost(offered))
        || changed;
    changed
}

/// The session state after offering a session update, judged against frames `f`.
pub open spec fn session_after(s: SessionState, u: SessionUpdate, f: Seq<Option<u32>>, fr: Option<u32>) -> SessionState {
    SessionState {
        track_id: merged_text(f, 44, s.track_id, u.track_id, fr),
        remaining_time_ms: merged(f, 45, s.remaining_time_ms, u.remaining_time_ms, fr),
        total_laps: merged(f, 46, s.total_laps, u.total_laps, fr),
        session_type: merged_text(f, 47, s.session_type, u.session_type, fr),
        track_length_m: merged(f, 48, s.track_length_m, u.track_length_m, fr),
        pit_speed_limit_mps: merged(f, 49, s.pit_speed_limit_mps, u.pit_speed_limit_mps, fr),
        safety_car_status: merged(f, 50, s.safety_car_status, u.safety_car_status, fr),
        race_flag: merged(f, 51, s.race_flag, u.race_flag, fr),
    }
}

/// Whether the session update supplies a value for slot `i`.
pub open spec fn session_offers(u: SessionUpdate, i: int) -> bool {
    ||| i == 44 && u.track_id is Some
    ||| i == 45 && u.remaining_time_ms is Some
    ||| i == 46 && u.total_laps is Some
    ||| i == 47 && u.session_type is Some
    ||| i == 48 && u.track_length_m is Some
    ||| i == 49 && u.pit_speed_limit_mps is Some
    ||| i == 50 && u.safety_car_status is Some
    ||| i == 51 && u.race_flag is Some
}


/// Offers every supplied session value to its field, in slot order.
pub fn apply_session(
    frames: &mut Vec<Option<u32>>,
    target: &mut SessionState,
    u: SessionUpdate,
    frame: Option<u32>,
    Ghost(start): Ghost<Seq<Option<u32>>>,
    Ghost(offered): Ghost<spec_fn(int) -> bool>,
) -> (changed: bool)
    requires
        start.len() == SLOT_COUNT,
        old(frames)@ == stamped_below(start, offered, frame, 44),
        forall|i: int| 44 <= i < 52 ==> #[trigger] offered(i) == session_offers(u, i),
    ensures
        changed == (*final(target) != *old(target)),
        *final(target) == session_after(*old(target), u, start, frame),
        final(frames)@ == stamped_below(start, offered, frame, 52),
{
    let mut changed = false;
    changed = offer_text(frames, &mut target.track_id, u.track_id, 44, frame, Ghost(start), Ghost(offered))
        || changed;
    changed = offer_optional(frames, &mut target.remaining_time_ms, u.remaining_time_ms, 45, frame, Ghost(start), Ghost(offered))
        || changed;
    changed = offer_optional(frames, &mut target.total_laps, u.total_laps, 46, frame, Ghost(start), Ghost(offered))
        || changed;
    changed = offer_text(frames, &mut target.session_type, u.session_type, 47, frame, Ghost(start), Ghost(offered))
        || changed;
    changed = offer_optional(frames, &mut target.track_length_m, u.track_length_m, 48, frame, Ghost(start), Ghost(offered))
        || changed;
    changed = offer_optional(frames, &mut target.pit_speed_limit_mps, u.pit_speed_limit_mps, 49, frame, Ghost(start), Ghost(offered))
        || changed;
    changed = offer_optional(frames, &mut target.safety_car_status, u.safety_car_status, 50, frame, Ghost(start), Ghost(offered))
        || changed;
    changed = offer_optional(frames, &mut target.race_flag, u.race_flag, 51, frame, Ghost(start), Ghost(offered))
        || changed;
    changed
}

/// The conditions state after offering a conditions update, judged against frames `f`.
pub open spec fn conditions_after(s: ConditionsState, u: ConditionsState, f: Seq<Option<u32>>, fr: Option<u32>) -> ConditionsState {
    ConditionsState {
        weather: merged(f, 83, s.weather, u.weather, fr),
        track_temperature_c: merged(f, 84, s.track_temperature_c, u.track_temperature_c, fr),
        air_temperature_c: merged(f, 85, s.air_temperature_c, u.air_temperature_c, fr),
    }
}

/// Whether the conditions update supplies a value for slot `i`.
pub open spec fn conditions_offers(u: ConditionsState, i: int) -> bool {
    ||| i == 83 && u.weather is Some
    ||| i == 84 && u.track_temperature_c is Some
    ||| i == 85 && u.air_temperature_c is Some
}


/// Offers every supplied conditions value to its field, in slot order.
pub fn apply_conditions(
    frames: &mut Vec<Option<u32>>,
    target: &mut ConditionsState,
    u: ConditionsState,
    frame: Option<u32>,
    Ghost(start): Ghost<Seq<Option<u32>>>,
    Ghost(offered): Ghost<spec_fn(int) -> bool>,
) -> (changed: bool)
    requires
        start.len() == SLOT_COUNT,
        old(frames)@ == stamped_below(start, offered, frame, 83),
        forall|i: int| 83 <= i < 86 ==> #[trigger] offered(i) == conditions_offers(u, i),
    ensures
        changed == (*final(target) != *old(target)),
        *final(target) == conditions_after(*old(target), u, start, frame),
        final(frames)@ == stamped_below(start, offered, frame, 86),
{
    let mut changed = false;
    changed = offer_optional(frames, &mut target.weather, u.weather, 83, frame, Ghost(start), Ghost(offered))
        || changed;
    changed = offer_optional(frames, &mut target.track_temperature_c, u.track_temperature_c, 84, frame, Ghost(start), Ghost(offered))
        || changed;
    changed = offer_optional(frames, &mut target.air_temperature_c, u.air_temperature_c, 85, frame, Ghost(start), Ghost(offered))
        || changed;
    changed
}

/// The damage state after offering a damage update, judged against frames `f`.
pub open spec fn damage_after(s: DamageState, u: DamageState, f: Seq<Option<u32>>, fr: Option<u32>) -> DamageState {
    DamageState {
        front_left_wing: merged(f, 86, s.front_left_wing, u.front_left_wing, fr),
        front_right_wing: merged(f, 87, s.front_right_wing, u.front_right_wing, fr),
        rear_wing: merged(f, 88, s.rear_wing, u.rear_wing, fr),
        floor: merged(f, 89, s.floor, u.floor, fr),
        diffuser: merged(f, 90, s.diffuser, u.diffuser, fr),
        sidepod: merged(f, 91, s.sidepod, u.sidepod, fr),
        gearbox: merged(f, 92, s.gearbox, u.gearbox, fr),
        engine: merged(f, 93, s.engine, u.engine, fr),
        engine_mguh_wear: merged(f, 94, s.engine_mguh_wear, u.engine_mguh_wear, fr),
        engine_es_wear: merged(f, 95, s.engine_es_wear, u.engine_es_wear, fr),
        engine_ce_wear: merged(f, 96, s.engine_ce_wear, u.engine_ce_wear, fr),
        engine_ice_wear: merged(f, 97, s.engine_ice_wear, u.engine_ice_wear, fr),
        engine_mguk_wear: merged(f, 98, s.engine_mguk_wear, u.engine_mguk_wear, fr),
        engine_tc_wear: merged(f, 99, s.engine_tc_wear, u.engine_tc_wear, fr),
        drs_fault: merged(f, 100, s.drs_fault, u.drs_fault, fr),
        ers_fault: merged(f, 101, s.ers_fault, u.ers_fault, fr),
        engine_blown: merged(f, 102, s.engine_blown, u.engine_blown, fr),
        engine_seized: merged(f, 103, s.engine_seized, u.engine_seized, fr),
    }
}

/// Whether the damage update supplies a value for slot `i`.
pub open spec fn damage_offers(u: DamageState, i: int) -> bool {
    ||| i == 86 && u.front_left_wing is Some
    ||| i == 87 && u.front_right_wing is Some
    ||| i == 88 && u.rear_wing is Some
    ||| i == 89 && u.floor is Some
    ||| i == 90 && u.diffuser is Some
    ||| i == 91 && u.sidepod is Some
    ||| i == 92 && u.gearbox is Some
    ||| i == 93 && u.engine is Some
    ||| i == 94 && u.engine_mguh_wear is Some
    ||| i == 95 && u.engine_es_wear is Some
    ||| i == 96 && u.engine_ce_wear is Some
    ||| i == 97 && u.engine_ice_wear is Some
    ||| i == 98 && u.engine_mguk_wear is Some
    ||| i == 99 && u.engine_tc_wear is Some
    ||| i == 100 && u.drs_fault is Some
    ||| i == 101 && u.ers_fault is Some
    ||| i == 102 && u.engine_blown is Some
    ||| i == 103 && u.engine_seized is Some
}


/// Offers every supplied damage value to its field, in slot order.
pub fn apply_damage(
    frames: &mut Vec<Option<u32>>,
    target: &mut DamageState,
    u: DamageState,
    frame: Option<u32>,
    Ghost(start): Ghost<Seq<Option<u32>>>,
    Ghost(offered): Ghost<spec_fn(int) -> bool>,
) -> (changed: bool)
    requires
        start.len() == SLOT_COUNT,
        old(frames)@ == stamped_below(start, offered, frame, 86),
        forall|i: int| 86 <= i < 104 ==> #[trigger] offered(i) == damage_offers(u, i),
    ensures
        changed == (*final(target) != *old(target)),
        *final(target) == damage_after(*old(target), u, start, frame),
        final(frames)@ == stamped_below(start, offered, frame, 104),
{
    let mut changed = false;
    changed = offer_optional(frames, &mut target.front_left_wing, u.front_left_wing, 86, frame, Ghost(start), Ghost(offered))
        || changed;
    changed = offer_optional(frames, &mut target.front_right_wing, u.front_right_wing, 87, frame, Ghost(start), Ghost(offered))
        || changed;
    changed = offer_optional(frames, &mut target.rear_wing, u.rear_wing, 88, frame, Ghost(start), Ghost(offered))
        || changed;
    changed = offer_optional(frames, &mut target.floor, u.floor, 89, frame, Ghost(start), Ghost(offered))
        || changed;
    changed = offer_optional(frames, &mut target.diffuser, u.diffuser, 90, frame, Ghost(start), Ghost(offered))
        || changed;
    changed = offer_optional(frames, &mut target.sidepod, u.sidepod, 91, frame, Ghost(start), Ghost(offered))
        || changed;
    changed = offer_optional(frames, &mut target.gearbox, u.gearbox, 92, frame, Ghost(start), Ghost(offered))
        || changed;
    changed = offer_optional(frames, &mut target.engine, u.engine, 93, frame, Ghost(start), Ghost(offered))
        || changed;
    changed = offer_optional(frames, &mut target.engine_mguh_wear, u.engine_mguh_wear, 94, frame, Ghost(start), Ghost(offered))
        || changed;
    changed = offer_optional(frames, &mut target.engine_es_wear, u.engine_es_wear, 95, frame, Ghost(start), Ghost(offered))
        || changed;
    changed = offer_optional(frames, &mut target.engine_ce_wear, u.engine_ce_wear, 96, frame, Ghost(start), Ghost(offered))
        || changed;
    changed = offer_optional(frames, &mut target.engine_ice_wear, u.engine_ice_wear, 97, frame, Ghost(start), Ghost(offered))
        || changed;
    changed = offer_optional(frames, &mut target.engine_mguk_wear, u.engine_mguk_wear, 98, frame, Ghost(start), Ghost(offered))
        || changed;
    changed = offer_optional(frames, &mut target.engine_tc_wear, u.engine_tc_wear, 99, frame, Ghost(start), Ghost(offered))
        || changed;
    changed = offer_optional(frames, &mut target.drs_fault, u.drs_fault, 100, frame, Ghost(start), Ghost(offered))
        || changed;
    changed = offer_optional(frames, &mut target.ers_fault, u.ers_fault, 101, frame, Ghost(start), Ghost(offered))
        || changed;
    changed = offer_optional(frames, &mut target.engine_blown, u.engine_blown, 102, frame, Ghost(start), Ghost(offered))
        || changed;
    changed = offer_optional(frames, &mut target.engine_seized, u.engine_seized, 103, frame, Ghost(start), Ghost(offered))
        || changed;
    changed
}

/// The aero state after offering a aero update, judged against frames `f`.
pub open spec fn aero_after(s: AeroState, u: AeroState, f: Seq<Option<u32>>, fr: Option<u32>) -> AeroState {
    AeroState {
        mode: merged(f, 104, s.mode, u.mode, fr),
        available: merged(f, 105, s.available, u.available, fr),
        activation_distance_m: merged(f, 106, s.activation_distance_m, u.activation_distance_m, fr),
        overtake_available: merged(f, 107, s.overtake_available, u.overtake_available, fr),
        overtake_active: merged(f, 108, s.overtake_active, u.overtake_active, fr),
        overtake_activation_distance_m: merged(f, 109, s.overtake_activation_distance_m, u.overtake_activation_distance_m, fr),
        regulations_2026: merged(f, 110, s.regulations_2026, u.regulations_2026, fr),
        driving_wrong_way: merged(f, 111, s.driving_wrong_way, u.driving_wrong_way, fr),
    }
}

/// Whether the aero update supplies a value for slot `i`.
pub open spec fn aero_offers(u: AeroState, i: int) -> bool {
    ||| i == 104 && u.mode is Some
    ||| i == 105 && u.available is Some
    ||| i == 106 && u.activation_distance_m is Some
    ||| i == 107 && u.overtake_available is Some
    ||| i == 108 && u.overtake_active is Some
    ||| i == 109 && u.overtake_activation_distance_m is Some
    ||| i == 110 && u.regulations_2026 is Some
    ||| i == 111 && u.driving_wrong_way is Some
}


/// Offers every supplied aero value to its field, in slot order.
pub fn apply_aero(
    frames: &mut Vec<Option<u32>>,
    target: &mut AeroState,
    u: AeroState,
    frame: Option<u32>,
    Ghost(start): Ghost<Seq<Option<u32>>>,
    Ghost(offered): Ghost<spec_fn(int) -> bool>,
) -> (changed: bool)
    requires
        start.len() == SLOT_COUNT,
        old(frames)@ == stamped_below(start, offered, frame, 104),
        forall|i: int| 104 <= i < 112 ==> #[trigger] offered(i) == aero_offers(u, i),
    ensures
        changed == (*final(target) != *old(target)),
        *final(target) == aero_after(*old(target), u, start, frame),
        final(frames)@ == stamped_below(start, offered, frame, 112),
{
    let mut changed = false;
    changed = offer_optional(frames, &mut target.mode, u.mode, 104, frame, Ghost(start), Ghost(offered))
        || changed;
    changed = offer_optional(frames, &mut target.available, u.available, 105, frame, Ghost(start), Ghost(offered))
        || changed;
    changed = offer_optional(frames, &mut target.activation_distance_m, u.activation_distance_m, 106, frame, Ghost(start), Ghost(offered))
        || changed;
    changed = offer_optional(frames, &mut target.overtake_available, u.overtake_available, 107, frame, Ghost(start), Ghost(offered))
        || changed;
    changed = offer_optional(frames, &mut target.overtake_active, u.overtake_active, 108, frame, Ghost(start), Ghost(offered))
        || changed;
    changed = offer_optional(frames, &mut target.overtake_activation_distance_m, u.overtake_activation_distance_m, 109, frame, Ghost(start), Ghost(offered))
        || changed;
    changed = offer_optional(frames, &mut target.regulations_2026, u.regulations_2026, 110, frame, Ghost(start), Ghost(offered))
        || changed;
    changed = offer_optional(frames, &mut target.driving_wrong_way, u.driving_wrong_way, 111, frame, Ghost(start), Ghost(offered))
        || changed;
    changed
}

/// The navigation state after offering a navigation update, judged against frames `f`.
pub open spec fn navigation_after(s: NavigationState, u: NavigationState, f: Seq<Option<u32>>, fr: Option<u32>) -> NavigationState {
    NavigationState {
        distance_m: merged(f, 112, s.distance_m, u.distance_m, fr),
        time_s: merged(f, 113, s.time_s, u.time_s, fr),
        speed_limit_mps: merged(f, 114, s.speed_limit_mps, u.speed_limit_mps, fr),
    }
}

/// Whether the navigation update supplies a value for slot `i`.
pub open spec fn navigation_offers(u: NavigationState, i: int) -> bool {
    ||| i == 112 && u.distance_m is Some
    ||| i == 113 && u.time_s is Some
    ||| i == 114 && u.speed_limit_mps is Some
}


/// Offers every supplied navigation value to its field, in slot order.
pub fn apply_navigation(
    frames: &mut Vec<Option<u32>>,
    target: &mut NavigationState,
    u: NavigationState,
    frame: Option<u32>,
    Ghost(start): Ghost<Seq<Option<u32>>>,
    Ghost(offered): Ghost<spec_fn(int) -> bool>,
) -> (changed: bool)
    requires
        start.len() == SLOT_COUNT,
        old(frames)@ == stamped_below(start, offered, frame, 112),
        forall|i: int| 112 <= i < 115 ==> #[trigger] offered(i) == navigation_offers(u, i),
    ensures
        changed == (*final(target) != *old(target)),
        *final(target) == navigation_after(*old(target), u, start, frame),
        final(frames)@ == stamped_below(start, offered, frame, 115),
{
    let mut changed = false;
    changed = offer_optional(frames, &mut target.distance_m, u.distance_m, 112, frame, Ghost(start), Ghost(offered))
        || changed;
    changed = offer_optional(frames, &mut target.time_s, u.time_s, 113, frame, Ghost(start), Ghost(offered))
        || changed;
    changed = offer_optional(frames, &mut target.speed_limit_mps, u.speed_limit_mps, 114, frame, Ghost(start), Ghost(offered))
        || changed;
    changed
}

/// The lights state after offering a lights update, judged against frames `f`.
pub open spec fn lights_after(s: LightsState, u: LightsState, f: Seq<Option<u32>>, fr: Option<u32>) -> LightsState {
    LightsState {
        parking: merged(f, 115, s.parking, u.parking, fr),
        low_beam: merged(f, 116, s.low_beam, u.low_beam, fr),
        high_beam: merged(f, 117, s.high_beam, u.high_beam, fr),
        beacon: merged(f, 118, s.beacon, u.beacon, fr),
        brake: merged(f, 119, s.brake, u.brake, fr),
        reverse: merged(f, 120, s.reverse, u.reverse, fr),
        left_indicator: merged(f, 121, s.left_indicator, u.left_indicator, fr),
        right_indicator: merged(f, 122, s.right_indicator, u.right_indicator, fr),
        hazard: merged(f, 123, s.hazard, u.hazard, fr),
    }
}

/// Whether the lights update supplies a value for slot `i`.
pub open spec fn lights_offers(u: LightsState, i: int) -> bool {
    ||| i == 115 && u.parking is Some
    ||| i == 116 && u.low_beam is Some
    ||| i == 117 && u.high_beam is Some
    ||| i == 118 && u.beacon is Some
    ||| i == 119 && u.brake is Some
    ||| i == 120 && u.reverse is Some
    ||| i == 121 && u.left_indicator is Some
    ||| i == 122 && u.right_indicator is Some
    ||| i == 123 && u.hazard is Some
}


/// Offers every supplied lights value to its field, in slot order.
pub fn apply_lights(
    frames: &mut Vec<Option<u32>>,
    target: &mut LightsState,
    u: LightsState,
    frame: Option<u32>,
    Ghost(start): Ghost<Seq<Option<u32>>>,
    Ghost(offered): Ghost<spec_fn(int) -> bool>,
) -> (changed: bool)
    requires
        start.len() == SLOT_COUNT,
        old(frames)@ == stamped_below(start, offered, frame, 115),
        forall|i: int| 115 <= i < 124 ==> #[trigger] offered(i) == lights_offers(u, i),
    ensures
        changed == (*final(target) != *old(target)),
        *final(target) == lights_after(*old(target), u, start, frame),
        final(frames)@ == stamped_below(start, offered, frame, 124),
{
    let mut changed = false;
    changed = offer_optional(frames, &mut target.parking, u.parking, 115, frame, Ghost(start), Ghost(offered))
        || changed;
    changed = offer_optional(frames, &mut target.low_beam, u.low_beam, 116, frame, Ghost(start), Ghost(offered))
        || changed;
    changed = offer_optional(frames, &mut target.high_beam, u.high_beam, 117, frame, Ghost(start), Ghost(offered))
        || changed;
    changed = offer_optional(frames, &mut target.beacon, u.beacon, 118, frame, Ghost(start), Ghost(offered))
        || changed;
    changed = offer_optional(frames, &mut target.brake, u.brake, 119, frame, Ghost(start), Ghost(offered))
        || changed;
    changed = offer_optional(frames, &mut target.reverse, u.reverse, 120, frame, Ghost(start), Ghost(offered))
        || changed;
    changed = offer_optional(frames, &mut target.left_indicator, u.left_indicator, 121, frame, Ghost(start), Ghost(offered))
        || changed;
    changed = offer_optional(frames, &mut target.right_indicator, u.right_indicator, 122, frame, Ghost(start), Ghost(offered))
        || changed;
    changed = offer_optional(frames, &mut target.hazard, u.hazard, 123, frame, Ghost(start), Ghost(offered))
        || changed;
    changed
}

/// The tyre corner after offering `u`, judged against frames `f`, with the
/// corner's fields tracked in the slots from `base`.
pub open spec fn corner_merge(
    s: TyreCornerState,
    u: TyreCornerState,
    f: Seq<Option<u32>>,
    base: int,
    fr: Option<u32>,
) -> TyreCornerState {
    TyreCornerState {
        surface_temperature_c: merged(f, base + 0, s.surface_temperature_c, u.surface_temperature_c, fr),
        inner_temperature_c: merged(f, base + 1, s.inner_temperature_c, u.inner_temperature_c, fr),
        pressure_pa: merged(f, base + 2, s.pressure_pa, u.pressure_pa, fr),
        wear: merged(f, base + 3, s.wear, u.wear, fr),
        damage: merged(f, base + 4, s.damage, u.damage, fr),
        brake_damage: merged(f, base + 5, s.brake_damage, u.brake_damage, fr),
        blister: merged(f, base + 6, s.blister, u.blister, fr),
    }
}

/// Whether some value of the corner update is accepted.
pub open spec fn corner_changed(u: TyreCornerState, f: Seq<Option<u32>>, base: int, fr: Option<u32>) -> bool {
    ||| accepts(f, base + 0, u.surface_temperature_c, fr)
    ||| accepts(f, base + 1, u.inner_temperature_c, fr)
    ||| accepts(f, base + 2, u.pressure_pa, fr)
    ||| accepts(f, base + 3, u.wear, fr)
    ||| accepts(f, base + 4, u.damage, fr)
    ||| accepts(f, base + 5, u.brake_damage, fr)
    ||| accepts(f, base + 6, u.blister, fr)
}

/// Whether the corner update supplies a value for slot `i`.
pub open spec fn corner_offers(u: Option<TyreCornerState>, base: int, i: int) -> bool {
    match u {
        None => false,
        Some(u) => {
            ||| i == base + 0 && u.surface_temperature_c is Some
            ||| i == base + 1 && u.inner_temperature_c is Some
            ||| i == base + 2 && u.pressure_pa is Some
            ||| i == base + 3 && u.wear is Some
            ||| i == base + 4 && u.damage is Some
            ||| i == base + 5 && u.brake_damage is Some
            ||| i == base + 6 && u.blister is Some
        },
    }
}

/// A corner with nothing known.
pub open spec fn empty_corner() -> TyreCornerState {
    TyreCornerState {
        surface_temperature_c: None,
        inner_temperature_c: None,
        pressure_pa: None,
        wear: None,
        damage: None,
        brake_damage: None,
        blister: None,
    }
}

/// The stored corner after offering an optional corner update: a corner is
/// only created or replaced when one of its values is accepted.
pub open spec fn corner_after(
    s: Option<TyreCornerState>,
    u: Option<TyreCornerState>,
    f: Seq<Option<u32>>,
    base: int,
    fr: Option<u32>,
) -> Option<TyreCornerState> {
    match u {
        None => s,
        Some(u) => if corner_changed(u, f, base, fr) {
            Some(corner_merge(s.unwrap_or(empty_corner()), u, f, base, fr))
        } else {
            s
        },
    }
}

/// Offers one corner update to one stored corner whose fields are tracked in
/// the seven slots from `base`.
pub fn apply_tyre_corner(
    frames: &mut Vec<Option<u32>>,
    target: &mut Option<TyreCornerState>,
    update: Option<TyreCornerState>,
    base: usize,
    frame: Option<u32>,
    Ghost(start): Ghost<Seq<Option<u32>>>,
    Ghost(offered): Ghost<spec_fn(int) -> bool>,
) -> (changed: bool)
    requires
        start.len() == SLOT_COUNT,
        base + CORNER_SLOTS <= SLOT_COUNT,
        old(frames)@ == stamped_below(start, offered, frame, base as int),
        forall|i: int| base <= i < base + CORNER_SLOTS ==> #[trigger] offered(i) == corner_offers(update, base as int, i),
    ensures
        changed == (*final(target) != *old(target)),
        *final(target) == corner_after(*old(target), update, start, base as int, frame),
        final(frames)@ == stamped_below(start, offered, frame, base + CORNER_SLOTS),
{
    let update = match update {
        None => {
            assert(frames@ =~= stamped_below(start, offered, frame, base + CORNER_SLOTS));
            return false;
        },
        Some(update) => update,
    };
    if update.surface_temperature_c.is_none() && update.inner_temperature_c.is_none()
        && update.pressure_pa.is_none() && update.wear.is_none() && update.damage.is_none()
        && update.brake_damage.is_none() && update.blister.is_none() {
        assert(frames@ =~= stamped_below(start, offered, frame, base + CORNER_SLOTS));
        return false;
    }
    let mut candidate = match target {
        Some(current) => *current,
        None => TyreCornerState {
            surface_temperature_c: None,
            inner_temperature_c: None,
            pressure_pa: None,
            wear: None,
            damage: None,
            brake_damage: None,
            blister: None,
        },
    };
    let mut changed = false;
    changed = offer_optional(frames, &mut candidate.surface_temperature_c, update.surface_temperature_c, base + 0, frame, Ghost(start), Ghost(offered))
        || changed;
    changed = offer_optional(frames, &mut candidate.inner_temperature_c, update.inner_temperature_c, base + 1, frame, Ghost(start), Ghost(offered))
        || changed;
    changed = offer_optional(frames, &mut candidate.pressure_pa, update.pressure_pa, base + 2, frame, Ghost(start), Ghost(offered))
        || changed;
    changed = offer_optional(frames, &mut candidate.wear, update.wear, base + 3, frame, Ghost(start), Ghost(offered))
        || changed;
    changed = offer_optional(frames, &mut candidate.damage, update.damage, base + 4, frame, Ghost(start), Ghost(offered))
        || changed;
    changed = offer_optional(frames, &mut candidate.brake_damage, update.brake_damage, base + 5, frame, Ghost(start), Ghost(offered))
        || changed;
    changed = offer_optional(frames, &mut candidate.blister, update.blister, base + 6, frame, Ghost(start), Ghost(offered))
        || changed;
    if changed {
        *target = Some(candidate);
    }
    changed
}

/// The tyre state after offering a tyre update, judged against frames `f`.
pub open spec fn tyres_after(s: TyreState, u: TyreUpdate, f: Seq<Option<u32>>, fr: Option<u32>) -> TyreState {
    TyreState {
        front_left: corner_after(s.front_left, u.front_left, f, 52, fr),
        front_right: corner_after(s.front_right, u.front_right, f, 59, fr),
        rear_left: corner_after(s.rear_left, u.rear_left, f, 66, fr),
        rear_right: corner_after(s.rear_right, u.rear_right, f, 73, fr),
        actual_compound: merged(f, 80, s.actual_compound, u.actual_compound, fr),
        visual_compound: merged(f, 81, s.visual_compound, u.visual_compound, fr),
        age_laps: merged(f, 82, s.age_laps, u.age_laps, fr),
    }
}

/// Whether the tyre update supplies a value for slot `i`.
pub open spec fn tyres_offers(u: TyreUpdate, i: int) -> bool {
    ||| 52 <= i < 59 && corner_offers(u.front_left, 52, i)
    ||| 59 <= i < 66 && corner_offers(u.front_right, 59, i)
    ||| 66 <= i < 73 && corner_offers(u.rear_left, 66, i)
    ||| 73 <= i < 80 && corner_offers(u.rear_right, 73, i)
    ||| i == 80 && u.actual_compound is Some
    ||| i == 81 && u.visual_compound is Some
    ||| i == 82 && u.age_laps is Some
}


/// Offers the four corner updates and the compound fields, in slot order.
pub fn apply_tyres(
    frames: &mut Vec<Option<u32>>,
    target: &mut TyreState,
    u: TyreUpdate,
    frame: Option<u32>,
    Ghost(start): Ghost<Seq<Option<u32>>>,
    Ghost(offered): Ghost<spec_fn(int) -> bool>,
) -> (changed: bool)
    requires
        start.len() == SLOT_COUNT,
        old(frames)@ == stamped_below(start, offered, frame, 52),
        forall|i: int| 52 <= i < 83 ==> #[trigger] offered(i) == tyres_offers(u, i),
    ensures
        changed == (*final(target) != *old(target)),
        *final(target) == tyres_after(*old(target), u, start, frame),
        final(frames)@ == stamped_below(start, offered, frame, 83),
{
    let mut changed = false;
    changed = apply_tyre_corner(frames, &mut target.front_left, u.front_left, 52, frame, Ghost(start), Ghost(offered)) || changed;
    changed = apply_tyre_corner(frames, &mut target.front_right, u.front_right, 59, frame, Ghost(start), Ghost(offered)) || changed;
    changed = apply_tyre_corner(frames, &mut target.rear_left, u.rear_left, 66, frame, Ghost(start), Ghost(offered)) || changed;
    changed = apply_tyre_corner(frames, &mut target.rear_right, u.rear_right, 73, frame, Ghost(start), Ghost(offered)) || changed;
    changed = offer_optional(frames, &mut target.actual_compound, u.actual_compound, 80, frame, Ghost(start), Ghost(offered)) || changed;
    changed = offer_optional(frames, &mut target.visual_compound, u.visual_compound, 81, frame, Ghost(start), Ghost(offered)) || changed;
    changed = offer_optional(frames, &mut target.age_laps, u.age_laps, 82, frame, Ghost(start), Ghost(offered)) || changed;
    changed
}

/// A job with nothing known except whether it is active.
pub open spec fn job_with_active(active: Option<bool>) -> JobState {
    JobState {
        active,
        cargo: None,
        cargo_mass_kg: None,
        source_city: None,
        destination_city: None,
        income: None,
        delivery_time: None,
        planned_distance_km: None,
        cargo_loaded: None,
        special: None,
    }
}

/// Whether the job update supplies a value for slot `i`, when it does not
/// complete the job.
pub open spec fn job_offers(u: JobState, i: int) -> bool {
    ||| i == 124 && u.active is Some
    ||| i == 125 && u.cargo is Some
    ||| i == 126 && u.cargo_mass_kg is Some
    ||| i == 127 && u.source_city is Some
    ||| i == 128 && u.destination_city is Some
    ||| i == 129 && u.income is Some
    ||| i == 130 && u.delivery_time is Some
    ||| i == 131 && u.planned_distance_km is Some
    ||| i == 132 && u.cargo_loaded is Some
    ||| i == 133 && u.special is Some
}

/// Whether the job update is dropped whole: it names an active flag whose
/// frame is older than the recorded one.
pub open spec fn job_rejected(u: JobState, f: Seq<Option<u32>>, fr: Option<u32>) -> bool {
    u.active is Some && !admits(f[124], fr)
}

/// The job after offering a job update, judged against frames `f`.
///
/// An accepted completion (`active == Some(false)`) clears every job detail;
/// otherwise each detail is merged on its own.
pub open spec fn job_after(s: JobState, u: JobState, f: Seq<Option<u32>>, fr: Option<u32>) -> JobState {
    if job_rejected(u, f, fr) {
        s
    } else if u.active == Some(false) {
        job_with_active(Some(false))
    } else {
        JobState {
            active: if u.active is Some { u.active } else { s.active },
            cargo: merged_text(f, 125, s.cargo, u.cargo, fr),
            cargo_mass_kg: merged(f, 126, s.cargo_mass_kg, u.cargo_mass_kg, fr),
            source_city: merged_text(f, 127, s.source_city, u.source_city, fr),
            destination_city: merged_text(f, 128, s.destination_city, u.destination_city, fr),
            income: merged(f, 129, s.income, u.income, fr),
            delivery_time: merged(f, 130, s.delivery_time, u.delivery_time, fr),
            planned_distance_km: merged(f, 131, s.planned_distance_km, u.planned_distance_km, fr),
            cargo_loaded: merged(f, 132, s.cargo_loaded, u.cargo_loaded, fr),
            special: merged(f, 133, s.special, u.special, fr),
        }
    }
}

/// Frame bookkeeping after offering a job update: an accepted completion
/// records its frame for the flag and every detail.
pub open spec fn job_frames(u: JobState, f: Seq<Option<u32>>, fr: Option<u32>) -> Seq<Option<u32>> {
    if job_rejected(u, f, fr) {
        f
    } else if u.active == Some(false) {
        Seq::new(f.len(), |i: int| if 124 <= i < 134 && fr is Some { fr } else { f[i] })
    } else {
        stamped(f, |i: int| job_offers(u, i), fr)
    }
}


/// Offers a job update. A completed job clears its stale delivery details.
pub fn apply_job(
    frames: &mut Vec<Option<u32>>,
    target: &mut JobState,
    u: JobState,
    frame: Option<u32>,
) -> (changed: bool)
    requires
        old(frames).len() == SLOT_COUNT,
    ensures
        changed == (*final(target) != *old(target)),
        *final(target) == job_after(*old(target), u, old(frames)@, frame),
        final(frames)@ == job_frames(u, old(frames)@, frame),
{
    let ghost start = frames@;
    if u.active == Some(false) {
        if !should_apply(frames, JOB_SLOT, frame) {
            return false;
        }
        if let Some(f) = frame {
            let mut slot = JOB_SLOT + 1;
            while slot < SLOT_COUNT
                invariant
                    JOB_SLOT + 1 <= slot <= SLOT_COUNT,
                    frames@.len() == SLOT_COUNT,
                    forall|i: int| 0 <= i < SLOT_COUNT ==> #[trigger] frames@[i] == (if 124 <= i < slot {
                        Some(f)
                    } else {
                        start[i]
                    }),
                decreases SLOT_COUNT - slot,
            {
                frames.set(slot, Some(f));
                slot = slot + 1;
            }
        }
        assert(frames@ =~= job_frames(u, start, frame));
        let done = target.active == Some(false) && target.cargo.is_none() && target.cargo_mass_kg.is_none()
            && target.source_city.is_none() && target.destination_city.is_none() && target.income.is_none()
            && target.delivery_time.is_none() && target.planned_distance_km.is_none()
            && target.cargo_loaded.is_none() && target.special.is_none();
        if done {
            assert(*target == job_with_active(Some(false)));
            return false;
        }
        *target = JobState {
            active: Some(false),
            cargo: None,
            cargo_mass_kg: None,
            source_city: None,
            destination_city: None,
            income: None,
            delivery_time: None,
            planned_distance_km: None,
            cargo_loaded: None,
            special: None,
        };
        return true;
    }
    if u.active.is_some() && !should_apply(frames, JOB_SLOT, frame) {
        return false;
    }
    let ghost offered = |i: int| job_offers(u, i);
    assert(frames@ =~= stamped_below(start, offered, frame, 125));
    let mut changed = false;
    if let Some(active) = u.active {
        let differs = match target.active {
            Some(current) => current != active,
            None => true,
        };
        if differs {
            target.active = Some(active);
        }
        changed = differs;
    }
    changed = offer_text(frames, &mut target.cargo, u.cargo, 125, frame, Ghost(start), Ghost(offered))
        || changed;
    changed = offer_optional(frames, &mut target.cargo_mass_kg, u.cargo_mass_kg, 126, frame, Ghost(start), Ghost(offered))
        || changed;
    changed = offer_text(frames, &mut target.source_city, u.source_city, 127, frame, Ghost(start), Ghost(offered))
        || changed;
    changed = offer_text(frames, &mut target.destination_city, u.destination_city, 128, frame, Ghost(start), Ghost(offered))
        || changed;
    changed = offer_optional(frames, &mut target.income, u.income, 129, frame, Ghost(start), Ghost(offered))
        || changed;
    changed = offer_optional(frames, &mut target.delivery_time, u.delivery_time, 130, frame, Ghost(start), Ghost(offered))
        || changed;
    changed = offer_optional(frames, &mut target.planned_distance_km, u.planned_distance_km, 131, frame, Ghost(start), Ghost(offered))
        || changed;
    changed = offer_optional(frames, &mut target.cargo_loaded, u.cargo_loaded, 132, frame, Ghost(start), Ghost(offered))
        || changed;
    changed = offer_optional(frames, &mut target.special, u.special, 133, frame, Ghost(start), Ghost(offered))
        || changed;
    assert(frames@ =~= job_frames(u, start, frame));
    changed
}

} // verus!
