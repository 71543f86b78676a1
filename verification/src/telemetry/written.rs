//! What an update without a frame does: every value it supplies is written.

use vstd::prelude::*;

use super::frames::same_text;
use super::groups::SLOT_COUNT;
use super::reducer::{groups_applied, TelemetryReducer};
use super::state::{TelemetrySnapshot, TelemetryUpdate};

verus! {

/// Whether snapshot `b` holds, in the field tracked by slot `i`, the value
/// that `u` supplies for it, if any (a text by its characters).
pub open spec fn slot_written(u: TelemetryUpdate, b: TelemetrySnapshot, i: int) -> bool {
    if i == 0 {
        u.vehicle.speed_mps is Some ==> b.vehicle.speed_mps == u.vehicle.speed_mps
    } else if i == 1 {
        u.vehicle.gear is Some ==> b.vehicle.gear == u.vehicle.gear->0
    } else if i == 2 {
        u.vehicle.rpm is Some ==> b.vehicle.rpm == u.vehicle.rpm
    } else if i == 3 {
        u.vehicle.rpm_max is Some ==> b.vehicle.rpm_max == u.vehicle.rpm_max
    } else if i == 4 {
        u.vehicle.rev_lights is Some ==> b.vehicle.rev_lights == u.vehicle.rev_lights
    } else if i == 5 {
        u.vehicle.throttle is Some ==> b.vehicle.throttle == u.vehicle.throttle
    } else if i == 6 {
        u.vehicle.brake is Some ==> b.vehicle.brake == u.vehicle.brake
    } else if i == 7 {
        u.vehicle.drs is Some ==> b.vehicle.drs == u.vehicle.drs->0
    } else if i == 8 {
        u.vehicle.fuel_kg is Some ==> b.vehicle.fuel_kg == u.vehicle.fuel_kg
    } else if i == 9 {
        u.vehicle.fuel_capacity_kg is Some ==> b.vehicle.fuel_capacity_kg == u.vehicle.fuel_capacity_kg
    } else if i == 10 {
        u.vehicle.fuel_remaining_laps is Some ==> b.vehicle.fuel_remaining_laps == u.vehicle.fuel_remaining_laps
    } else if i == 11 {
        u.vehicle.fuel_liters is Some ==> b.vehicle.fuel_liters == u.vehicle.fuel_liters
    } else if i == 12 {
        u.vehicle.fuel_capacity_liters is Some ==> b.vehicle.fuel_capacity_liters == u.vehicle.fuel_capacity_liters
    } else if i == 13 {
        u.vehicle.fuel_range_km is Some ==> b.vehicle.fuel_range_km == u.vehicle.fuel_range_km
    } else if i == 14 {
        u.vehicle.fuel_warning is Some ==> b.vehicle.fuel_warning == u.vehicle.fuel_warning
    } else if i == 15 {
        u.vehicle.pit_limiter is Some ==> b.vehicle.pit_limiter == u.vehicle.pit_limiter
    } else if i == 16 {
        u.vehicle.ers_energy_j is Some ==> b.vehicle.ers_energy_j == u.vehicle.ers_energy_j
    } else if i == 17 {
        u.lap.current is Some ==> b.lap.current == u.lap.current
    } else if i == 18 {
        u.lap.position is Some ==> b.lap.position == u.lap.position
    } else if i == 19 {
        u.lap.current_time_ms is Some ==> b.lap.current_time_ms == u.lap.current_time_ms
    } else if i == 20 {
        u.lap.last_time_ms is Some ==> b.lap.last_time_ms == u.lap.last_time_ms
    } else if i == 21 {
        u.lap.delta_to_best_ms is Some ==> b.lap.delta_to_best_ms == u.lap.delta_to_best_ms
    } else if i == 22 {
        u.lap.invalid is Some ==> b.lap.invalid == u.lap.invalid
    } else if i == 23 {
        u.lap.sector is Some ==> b.lap.sector == u.lap.sector
    } else if i == 24 {
        u.lap.sector1_time_ms is Some ==> b.lap.sector1_time_ms == u.lap.sector1_time_ms
    } else if i == 25 {
        u.lap.sector2_time_ms is Some ==> b.lap.sector2_time_ms == u.lap.sector2_time_ms
    } else if i == 26 {
        u.lap.delta_to_car_in_front_ms is Some ==> b.lap.delta_to_car_in_front_ms == u.lap.delta_to_car_in_front_ms
    } else if i == 27 {
        u.lap.delta_to_race_leader_ms is Some ==> b.lap.delta_to_race_leader_ms == u.lap.delta_to_race_leader_ms
    } else if i == 28 {
        u.lap.distance_m is Some ==> b.lap.distance_m == u.lap.distance_m
    } else if i == 29 {
        u.lap.total_distance_m is Some ==> b.lap.total_distance_m == u.lap.total_distance_m
    } else if i == 30 {
        u.lap.safety_car_delta_ms is Some ==> b.lap.safety_car_delta_ms == u.lap.safety_car_delta_ms
    } else if i == 31 {
        u.lap.pit_status is Some ==> b.lap.pit_status == u.lap.pit_status
    } else if i == 32 {
        u.lap.pit_stops is Some ==> b.lap.pit_stops == u.lap.pit_stops
    } else if i == 33 {
        u.lap.penalties_seconds is Some ==> b.lap.penalties_seconds == u.lap.penalties_seconds
    } else if i == 34 {
        u.lap.warnings is Some ==> b.lap.warnings == u.lap.warnings
    } else if i == 35 {
        u.lap.corner_cutting_warnings is Some ==> b.lap.corner_cutting_warnings == u.lap.corner_cutting_warnings
    } else if i == 36 {
        u.lap.unserved_drive_through_penalties is Some ==> b.lap.unserved_drive_through_penalties == u.lap.unserved_drive_through_penalties
    } else if i == 37 {
        u.lap.unserved_stop_go_penalties is Some ==> b.lap.unserved_stop_go_penalties == u.lap.unserved_stop_go_penalties
    } else if i == 38 {
        u.lap.grid_position is Some ==> b.lap.grid_position == u.lap.grid_position
    } else if i == 39 {
        u.lap.driver_status is Some ==> b.lap.driver_status == u.lap.driver_status
    } else if i == 40 {
        u.lap.result_status is Some ==> b.lap.result_status == u.lap.result_status
    } else if i == 41 {
        u.lap.pit_lane_time_ms is Some ==> b.lap.pit_lane_time_ms == u.lap.pit_lane_time_ms
    } else if i == 42 {
        u.lap.pit_stop_time_ms is Some ==> b.lap.pit_stop_time_ms == u.lap.pit_stop_time_ms
    } else if i == 43 {
        u.lap.pit_stop_should_serve_penalty is Some ==> b.lap.pit_stop_should_serve_penalty == u.lap.pit_stop_should_serve_penalty
    } else if i == 44 {
        u.session.track_id is Some ==> same_text(b.session.track_id, u.session.track_id)
    } else if i == 45 {
        u.session.remaining_time_ms is Some ==> b.session.remaining_time_ms == u.session.remaining_time_ms
    } else if i == 46 {
        u.session.total_laps is Some ==> b.session.total_laps == u.session.total_laps
    } else if i == 47 {
        u.session.session_type is Some ==> same_text(b.session.session_type, u.session.session_type)
    } else if i == 48 {
        u.session.track_length_m is Some ==> b.session.track_length_m == u.session.track_length_m
    } else if i == 49 {
        u.session.pit_speed_limit_mps is Some ==> b.session.pit_speed_limit_mps == u.session.pit_speed_limit_mps
    } else if i == 50 {
        u.session.safety_car_status is Some ==> b.session.safety_car_status == u.session.safety_car_status
    } else if i == 51 {
        u.session.race_flag is Some ==> b.session.race_flag == u.session.race_flag
    } else if i == 52 {
        u.tyres.front_left matches Some(c) ==> (c.surface_temperature_c is Some ==> (b.tyres.front_left matches Some(d) && d.surface_temperature_c == c.surface_temperature_c))
    } else if i == 53 {
        u.tyres.front_left matches Some(c) ==> (c.inner_temperature_c is Some ==> (b.tyres.front_left matches Some(d) && d.inner_temperature_c == c.inner_temperature_c))
    } else if i == 54 {
        u.tyres.front_left matches Some(c) ==> (c.pressure_pa is Some ==> (b.tyres.front_left matches Some(d) && d.pressure_pa == c.pressure_pa))
    } else if i == 55 {
        u.tyres.front_left matches Some(c) ==> (c.wear is Some ==> (b.tyres.front_left matches Some(d) && d.wear == c.wear))
    } else if i == 56 {
        u.tyres.front_left matches Some(c) ==> (c.damage is Some ==> (b.tyres.front_left matches Some(d) && d.damage == c.damage))
    } else if i == 57 {
        u.tyres.front_left matches Some(c) ==> (c.brake_damage is Some ==> (b.tyres.front_left matches Some(d) && d.brake_damage == c.brake_damage))
    } else if i == 58 {
        u.tyres.front_left matches Some(c) ==> (c.blister is Some ==> (b.tyres.front_left matches Some(d) && d.blister == c.blister))
    } else if i == 59 {
        u.tyres.front_right matches Some(c) ==> (c.surface_temperature_c is Some ==> (b.tyres.front_right matches Some(d) && d.surface_temperature_c == c.surface_temperature_c))
    } else if i == 60 {
        u.tyres.front_right matches Some(c) ==> (c.inner_temperature_c is Some ==> (b.tyres.front_right matches Some(d) && d.inner_temperature_c == c.inner_temperature_c))
    } else if i == 61 {
        u.tyres.front_right matches Some(c) ==> (c.pressure_pa is Some ==> (b.tyres.front_right matches Some(d) && d.pressure_pa == c.pressure_pa))
    } else if i == 62 {
        u.tyres.front_right matches Some(c) ==> (c.wear is Some ==> (b.tyres.front_right matches Some(d) && d.wear == c.wear))
    } else if i == 63 {
        u.tyres.front_right matches Some(c) ==> (c.damage is Some ==> (b.tyres.front_right matches Some(d) && d.damage == c.damage))
    } else if i == 64 {
        u.tyres.front_right matches Some(c) ==> (c.brake_damage is Some ==> (b.tyres.front_right matches Some(d) && d.brake_damage == c.brake_damage))
    } else if i == 65 {
        u.tyres.front_right matches Some(c) ==> (c.blister is Some ==> (b.tyres.front_right matches Some(d) && d.blister == c.blister))
    } else if i == 66 {
        u.tyres.rear_left matches Some(c) ==> (c.surface_temperature_c is Some ==> (b.tyres.rear_left matches Some(d) && d.surface_temperature_c == c.surface_temperature_c))
    } else if i == 67 {
        u.tyres.rear_left matches Some(c) ==> (c.inner_temperature_c is Some ==> (b.tyres.rear_left matches Some(d) && d.inner_temperature_c == c.inner_temperature_c))
    } else if i == 68 {
        u.tyres.rear_left matches Some(c) ==> (c.pressure_pa is Some ==> (b.tyres.rear_left matches Some(d) && d.pressure_pa == c.pressure_pa))
    } else if i == 69 {
        u.tyres.rear_left matches Some(c) ==> (c.wear is Some ==> (b.tyres.rear_left matches Some(d) && d.wear == c.wear))
    } else if i == 70 {
        u.tyres.rear_left matches Some(c) ==> (c.damage is Some ==> (b.tyres.rear_left matches Some(d) && d.damage == c.damage))
    } else if i == 71 {
        u.tyres.rear_left matches Some(c) ==> (c.brake_damage is Some ==> (b.tyres.rear_left matches Some(d) && d.brake_damage == c.brake_damage))
    } else if i == 72 {
        u.tyres.rear_left matches Some(c) ==> (c.blister is Some ==> (b.tyres.rear_left matches Some(d) && d.blister == c.blister))
    } else if i == 73 {
        u.tyres.rear_right matches Some(c) ==> (c.surface_temperature_c is Some ==> (b.tyres.rear_right matches Some(d) && d.surface_temperature_c == c.surface_temperature_c))
    } else if i == 74 {
        u.tyres.rear_right matches Some(c) ==> (c.inner_temperature_c is Some ==> (b.tyres.rear_right matches Some(d) && d.inner_temperature_c == c.inner_temperature_c))
    } else if i == 75 {
        u.tyres.rear_right matches Some(c) ==> (c.pressure_pa is Some ==> (b.tyres.rear_right matches Some(d) && d.pressure_pa == c.pressure_pa))
    } else if i == 76 {
        u.tyres.rear_right matches Some(c) ==> (c.wear is Some ==> (b.tyres.rear_right matches Some(d) && d.wear == c.wear))
    } else if i == 77 {
        u.tyres.rear_right matches Some(c) ==> (c.damage is Some ==> (b.tyres.rear_right matches Some(d) && d.damage == c.damage))
    } else if i == 78 {
        u.tyres.rear_right matches Some(c) ==> (c.brake_damage is Some ==> (b.tyres.rear_right matches Some(d) && d.brake_damage == c.brake_damage))
    } else if i == 79 {
        u.tyres.rear_right matches Some(c) ==> (c.blister is Some ==> (b.tyres.rear_right matches Some(d) && d.blister == c.blister))
    } else if i == 80 {
        u.tyres.actual_compound is Some ==> b.tyres.actual_compound == u.tyres.actual_compound
    } else if i == 81 {
        u.tyres.visual_compound is Some ==> b.tyres.visual_compound == u.tyres.visual_compound
    } else if i == 82 {
        u.tyres.age_laps is Some ==> b.tyres.age_laps == u.tyres.age_laps
    } else if i == 83 {
        u.conditions.weather is Some ==> b.conditions.weather == u.conditions.weather
    } else if i == 84 {
        u.conditions.track_temperature_c is Some ==> b.conditions.track_temperature_c == u.conditions.track_temperature_c
    } else if i == 85 {
        u.conditions.air_temperature_c is Some ==> b.conditions.air_temperature_c == u.conditions.air_temperature_c
    } else if i == 86 {
        u.damage.front_left_wing is Some ==> b.damage.front_left_wing == u.damage.front_left_wing
    } else if i == 87 {
        u.damage.front_right_wing is Some ==> b.damage.front_right_wing == u.damage.front_right_wing
    } else if i == 88 {
        u.damage.rear_wing is Some ==> b.damage.rear_wing == u.damage.rear_wing
    } else if i == 89 {
        u.damage.floor is Some ==> b.damage.floor == u.damage.floor
    } else if i == 90 {
        u.damage.diffuser is Some ==> b.damage.diffuser == u.damage.diffuser
    } else if i == 91 {
        u.damage.sidepod is Some ==> b.damage.sidepod == u.damage.sidepod
    } else if i == 92 {
        u.damage.gearbox is Some ==> b.damage.gearbox == u.damage.gearbox
    } else if i == 93 {
        u.damage.engine is Some ==> b.damage.engine == u.damage.engine
    } else if i == 94 {
        u.damage.engine_mguh_wear is Some ==> b.damage.engine_mguh_wear == u.damage.engine_mguh_wear
    } else if i == 95 {
        u.damage.engine_es_wear is Some ==> b.damage.engine_es_wear == u.damage.engine_es_wear
    } else if i == 96 {
        u.damage.engine_ce_wear is Some ==> b.damage.engine_ce_wear == u.damage.engine_ce_wear
    } else if i == 97 {
        u.damage.engine_ice_wear is Some ==> b.damage.engine_ice_wear == u.damage.engine_ice_wear
    } else if i == 98 {
        u.damage.engine_mguk_wear is Some ==> b.damage.engine_mguk_wear == u.damage.engine_mguk_wear
    } else if i == 99 {
        u.damage.engine_tc_wear is Some ==> b.damage.engine_tc_wear == u.damage.engine_tc_wear
    } else if i == 100 {
        u.damage.drs_fault is Some ==> b.damage.drs_fault == u.damage.drs_fault
    } else if i == 101 {
        u.damage.ers_fault is Some ==> b.damage.ers_fault == u.damage.ers_fault
    } else if i == 102 {
        u.damage.engine_blown is Some ==> b.damage.engine_blown == u.damage.engine_blown
    } else if i == 103 {
        u.damage.engine_seized is Some ==> b.damage.engine_seized == u.damage.engine_seized
    } else if i == 104 {
        u.aero.mode is Some ==> b.aero.mode == u.aero.mode
    } else if i == 105 {
        u.aero.available is Some ==> b.aero.available == u.aero.available
    } else if i == 106 {
        u.aero.activation_distance_m is Some ==> b.aero.activation_distance_m == u.aero.activation_distance_m
    } else if i == 107 {
        u.aero.overtake_available is Some ==> b.aero.overtake_available == u.aero.overtake_available
    } else if i == 108 {
        u.aero.overtake_active is Some ==> b.aero.overtake_active == u.aero.overtake_active
    } else if i == 109 {
        u.aero.overtake_activation_distance_m is Some ==> b.aero.overtake_activation_distance_m == u.aero.overtake_activation_distance_m
    } else if i == 110 {
        u.aero.regulations_2026 is Some ==> b.aero.regulations_2026 == u.aero.regulations_2026
    } else if i == 111 {
        u.aero.driving_wrong_way is Some ==> b.aero.driving_wrong_way == u.aero.driving_wrong_way
    } else if i == 112 {
        u.navigation.distance_m is Some ==> b.navigation.distance_m == u.navigation.distance_m
    } else if i == 113 {
        u.navigation.time_s is Some ==> b.navigation.time_s == u.navigation.time_s
    } else if i == 114 {
        u.navigation.speed_limit_mps is Some ==> b.navigation.speed_limit_mps == u.navigation.speed_limit_mps
    } else if i == 115 {
        u.lights.parking is Some ==> b.lights.parking == u.lights.parking
    } else if i == 116 {
        u.lights.low_beam is Some ==> b.lights.low_beam == u.lights.low_beam
    } else if i == 117 {
        u.lights.high_beam is Some ==> b.lights.high_beam == u.lights.high_beam
    } else if i == 118 {
        u.lights.beacon is Some ==> b.lights.beacon == u.lights.beacon
    } else if i == 119 {
        u.lights.brake is Some ==> b.lights.brake == u.lights.brake
    } else if i == 120 {
        u.lights.reverse is Some ==> b.lights.reverse == u.lights.reverse
    } else if i == 121 {
        u.lights.left_indicator is Some ==> b.lights.left_indicator == u.lights.left_indicator
    } else if i == 122 {
        u.lights.right_indicator is Some ==> b.lights.right_indicator == u.lights.right_indicator
    } else if i == 123 {
        u.lights.hazard is Some ==> b.lights.hazard == u.lights.hazard
    } else if i == 124 {
        u.job.active is Some ==> b.job.active == u.job.active
    } else if i == 125 {
        u.job.cargo is Some ==> same_text(b.job.cargo, u.job.cargo)
    } else if i == 126 {
        u.job.cargo_mass_kg is Some ==> b.job.cargo_mass_kg == u.job.cargo_mass_kg
    } else if i == 127 {
        u.job.source_city is Some ==> same_text(b.job.source_city, u.job.source_city)
    } else if i == 128 {
        u.job.destination_city is Some ==> same_text(b.job.destination_city, u.job.destination_city)
    } else if i == 129 {
        u.job.income is Some ==> b.job.income == u.job.income
    } else if i == 130 {
        u.job.delivery_time is Some ==> b.job.delivery_time == u.job.delivery_time
    } else if i == 131 {
        u.job.planned_distance_km is Some ==> b.job.planned_distance_km == u.job.planned_distance_km
    } else if i == 132 {
        u.job.cargo_loaded is Some ==> b.job.cargo_loaded == u.job.cargo_loaded
    } else if i == 133 {
        u.job.special is Some ==> b.job.special == u.job.special
    } else {
        true
    }
}

/// An update without a frame writes every value it supplies, whatever frames
/// the fields recorded; a completion of the job clears the job's details
/// instead of taking those the update carries.
pub proof fn law_frameless_values_are_written(
    pre: TelemetryReducer,
    u: TelemetryUpdate,
    post: TelemetryReducer,
    changed: bool,
)
    requires
        pre.well_formed(),
        u.frame_id is None,
        TelemetryReducer::applied(pre, u, post, changed),
    ensures
        forall|i: int|
            0 <= i < SLOT_COUNT && !(125 <= i < 134 && u.job.active == Some(false))
                ==> #[trigger] slot_written(u, post.current(), i),
{
    reveal(groups_applied);
}

} // verus!
