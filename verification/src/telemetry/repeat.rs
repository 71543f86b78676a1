//! Applying the same update twice: the second application changes nothing.
use vstd::prelude::*;

use super::extensions::{extension_written, lookup};
use super::frames::{admits, merged, merged_text, merged_value};
use super::groups::{
    SLOT_COUNT, aero_after, aero_offers, conditions_after, conditions_offers, corner_after,
    corner_changed, corner_merge, corner_offers, damage_after, damage_offers, empty_corner,
    job_after, job_frames, job_offers, job_rejected, lap_after, lap_offers, lights_after,
    lights_offers, navigation_after, navigation_offers, session_after, session_offers, tyres_after,
    tyres_offers, vehicle_after, vehicle_offers,
};
use super::reducer::{groups_applied, is_new_session, no_frames, update_offers, TelemetryReducer};
use super::state::{
    AeroState, ConditionsState, DamageState, JobState, LapState, LapUpdate, LightsState,
    NavigationState, SessionState, SessionUpdate, TelemetryUpdate, TyreCornerState, TyreState,
    TyreUpdate, VehicleState, VehicleUpdate,
};

verus! {

/// The frame recorded in slot `i` after a value was offered there when
/// `offered` holds.
pub open spec fn restamped(f: Seq<Option<u32>>, offered: bool, i: int, fr: Option<u32>) -> Option<u32> {
    if offered && fr is Some && admits(f[i], fr) {
        fr
    } else {
        f[i]
    }
}

proof fn lemma_merged_twice<T>(f: Seq<Option<u32>>, g: Seq<Option<u32>>, i: int, c: Option<T>, v: Option<T>, fr: Option<u32>)
    requires
        g[i] == restamped(f, v is Some, i, fr),
    ensures
        merged(g, i, merged(f, i, c, v, fr), v, fr) == merged(f, i, c, v, fr),
{
}

proof fn lemma_merged_value_twice<T>(f: Seq<Option<u32>>, g: Seq<Option<u32>>, i: int, c: T, v: Option<T>, fr: Option<u32>)
    requires
        g[i] == restamped(f, v is Some, i, fr),
    ensures
        merged_value(g, i, merged_value(f, i, c, v, fr), v, fr) == merged_value(f, i, c, v, fr),
{
}

proof fn lemma_merged_text_twice(f: Seq<Option<u32>>, g: Seq<Option<u32>>, i: int, c: Option<String>, v: Option<String>, fr: Option<u32>)
    requires
        g[i] == restamped(f, v is Some, i, fr),
    ensures
        merged_text(g, i, merged_text(f, i, c, v, fr), v, fr) == merged_text(f, i, c, v, fr),
{
}

/// Offering the same vehicle update twice gives what offering it once gave.
proof fn lemma_vehicle_twice(s: VehicleState, u: VehicleUpdate, f: Seq<Option<u32>>, g: Seq<Option<u32>>, fr: Option<u32>)
    requires
        f.len() == SLOT_COUNT,
        g.len() == SLOT_COUNT,
        forall|i: int| 0 <= i < 17 ==> #[trigger] g[i] == restamped(f, vehicle_offers(u, i), i, fr),
    ensures
        vehicle_after(vehicle_after(s, u, f, fr), u, g, fr) == vehicle_after(s, u, f, fr),
{
    lemma_merged_twice(f, g, 0, s.speed_mps, u.speed_mps, fr);
    lemma_merged_value_twice(f, g, 1, s.gear, u.gear, fr);
    lemma_merged_twice(f, g, 2, s.rpm, u.rpm, fr);
    lemma_merged_twice(f, g, 3, s.rpm_max, u.rpm_max, fr);
    lemma_merged_twice(f, g, 4, s.rev_lights, u.rev_lights, fr);
    lemma_merged_twice(f, g, 5, s.throttle, u.throttle, fr);
    lemma_merged_twice(f, g, 6, s.brake, u.brake, fr);
    lemma_merged_value_twice(f, g, 7, s.drs, u.drs, fr);
    lemma_merged_twice(f, g, 8, s.fuel_kg, u.fuel_kg, fr);
    lemma_merged_twice(f, g, 9, s.fuel_capacity_kg, u.fuel_capacity_kg, fr);
    lemma_merged_twice(f, g, 10, s.fuel_remaining_laps, u.fuel_remaining_laps, fr);
    lemma_merged_twice(f, g, 11, s.fuel_liters, u.fuel_liters, fr);
    lemma_merged_twice(f, g, 12, s.fuel_capacity_liters, u.fuel_capacity_liters, fr);
    lemma_merged_twice(f, g, 13, s.fuel_range_km, u.fuel_range_km, fr);
    lemma_merged_twice(f, g, 14, s.fuel_warning, u.fuel_warning, fr);
    lemma_merged_twice(f, g, 15, s.pit_limiter, u.pit_limiter, fr);
    lemma_merged_twice(f, g, 16, s.ers_energy_j, u.ers_energy_j, fr);
}

/// Offering the same lap update twice gives what offering it once gave.
proof fn lemma_lap_twice(s: LapState, u: LapUpdate, f: Seq<Option<u32>>, g: Seq<Option<u32>>, fr: Option<u32>)
    requires
        f.len() == SLOT_COUNT,
        g.len() == SLOT_COUNT,
        forall|i: int| 17 <= i < 44 ==> #[trigger] g[i] == restamped(f, lap_offers(u, i), i, fr),
    ensures
        lap_after(lap_after(s, u, f, fr), u, g, fr) == lap_after(s, u, f, fr),
{
    lemma_merged_twice(f, g, 17, s.current, u.current, fr);
    lemma_merged_twice(f, g, 18, s.position, u.position, fr);
    lemma_merged_twice(f, g, 19, s.current_time_ms, u.current_time_ms, fr);
    lemma_merged_twice(f, g, 20, s.last_time_ms, u.last_time_ms, fr);
    lemma_merged_twice(f, g, 21, s.delta_to_best_ms, u.delta_to_best_ms, fr);
    lemma_merged_twice(f, g, 22, s.invalid, u.invalid, fr);
    lemma_merged_twice(f, g, 23, s.sector, u.sector, fr);
    lemma_merged_twice(f, g, 24, s.sector1_time_ms, u.sector1_time_ms, fr);
    lemma_merged_twice(f, g, 25, s.sector2_time_ms, u.sector2_time_ms, fr);
    lemma_merged_twice(f, g, 26, s.delta_to_car_in_front_ms, u.delta_to_car_in_front_ms, fr);
    lemma_merged_twice(f, g, 27, s.delta_to_race_leader_ms, u.delta_to_race_leader_ms, fr);
    lemma_merged_twice(f, g, 28, s.distance_m, u.distance_m, fr);
    lemma_merged_twice(f, g, 29, s.total_distance_m, u.total_distance_m, fr);
    lemma_merged_twice(f, g, 30, s.safety_car_delta_ms, u.safety_car_delta_ms, fr);
    lemma_merged_twice(f, g, 31, s.pit_status, u.pit_status, fr);
    lemma_merged_twice(f, g, 32, s.pit_stops, u.pit_stops, fr);
    lemma_merged_twice(f, g, 33, s.penalties_seconds, u.penalties_seconds, fr);
    lemma_merged_twice(f, g, 34, s.warnings, u.warnings, fr);
    lemma_merged_twice(f, g, 35, s.corner_cutting_warnings, u.corner_cutting_warnings, fr);
    lemma_merged_twice(f, g, 36, s.unserved_drive_through_penalties, u.unserved_drive_through_penalties, fr);
    lemma_merged_twice(f, g, 37, s.unserved_stop_go_penalties, u.unserved_stop_go_penalties, fr);
    lemma_merged_twice(f, g, 38, s.grid_position, u.grid_position, fr);
    lemma_merged_twice(f, g, 39, s.driver_status, u.driver_status, fr);
    lemma_merged_twice(f, g, 40, s.result_status, u.result_status, fr);
    lemma_merged_twice(f, g, 41, s.pit_lane_time_ms, u.pit_lane_time_ms, fr);
    lemma_merged_twice(f, g, 42, s.pit_stop_time_ms, u.pit_stop_time_ms, fr);
    lemma_merged_twice(f, g, 43, s.pit_stop_should_serve_penalty, u.pit_stop_should_serve_penalty, fr);
}

/// Offering the same session update twice gives what offering it once gave.
proof fn lemma_session_twice(s: SessionState, u: SessionUpdate, f: Seq<Option<u32>>, g: Seq<Option<u32>>, fr: Option<u32>)
    requires
        f.len() == SLOT_COUNT,
        g.len() == SLOT_COUNT,
        forall|i: int| 44 <= i < 52 ==> #[trigger] g[i] == restamped(f, session_offers(u, i), i, fr),
    ensures
        session_after(session_after(s, u, f, fr), u, g, fr) == session_after(s, u, f, fr),
{
    lemma_merged_text_twice(f, g, 44, s.track_id, u.track_id, fr);
    lemma_merged_twice(f, g, 45, s.remaining_time_ms, u.remaining_time_ms, fr);
    lemma_merged_twice(f, g, 46, s.total_laps, u.total_laps, fr);
    lemma_merged_text_twice(f, g, 47, s.session_type, u.session_type, fr);
    lemma_merged_twice(f, g, 48, s.track_length_m, u.track_length_m, fr);
    lemma_merged_twice(f, g, 49, s.pit_speed_limit_mps, u.pit_speed_limit_mps, fr);
    lemma_merged_twice(f, g, 50, s.safety_car_status, u.safety_car_status, fr);
    lemma_merged_twice(f, g, 51, s.race_flag, u.race_flag, fr);
}

/// Offering the same conditions update twice gives what offering it once gave.
proof fn lemma_conditions_twice(s: ConditionsState, u: ConditionsState, f: Seq<Option<u32>>, g: Seq<Option<u32>>, fr: Option<u32>)
    requires
        f.len() == SLOT_COUNT,
        g.len() == SLOT_COUNT,
        forall|i: int| 83 <= i < 86 ==> #[trigger] g[i] == restamped(f, conditions_offers(u, i), i, fr),
    ensures
        conditions_after(conditions_after(s, u, f, fr), u, g, fr) == conditions_after(s, u, f, fr),
{
    lemma_merged_twice(f, g, 83, s.weather, u.weather, fr);
    lemma_merged_twice(f, g, 84, s.track_temperature_c, u.track_temperature_c, fr);
    lemma_merged_twice(f, g, 85, s.air_temperature_c, u.air_temperature_c, fr);
}

/// Offering the same damage update twice gives what offering it once gave.
proof fn lemma_damage_twice(s: DamageState, u: DamageState, f: Seq<Option<u32>>, g: Seq<Option<u32>>, fr: Option<u32>)
    requires
        f.len() == SLOT_COUNT,
        g.len() == SLOT_COUNT,
        forall|i: int| 86 <= i < 104 ==> #[trigger] g[i] == restamped(f, damage_offers(u, i), i, fr),
    ensures
        damage_after(damage_after(s, u, f, fr), u, g, fr) == damage_after(s, u, f, fr),
{
    lemma_merged_twice(f, g, 86, s.front_left_wing, u.front_left_wing, fr);
    lemma_merged_twice(f, g, 87, s.front_right_wing, u.front_right_wing, fr);
    lemma_merged_twice(f, g, 88, s.rear_wing, u.rear_wing, fr);
    lemma_merged_twice(f, g, 89, s.floor, u.floor, fr);
    lemma_merged_twice(f, g, 90, s.diffuser, u.diffuser, fr);
    lemma_merged_twice(f, g, 91, s.sidepod, u.sidepod, fr);
    lemma_merged_twice(f, g, 92, s.gearbox, u.gearbox, fr);
    lemma_merged_twice(f, g, 93, s.engine, u.engine, fr);
    lemma_merged_twice(f, g, 94, s.engine_mguh_wear, u.engine_mguh_wear, fr);
    lemma_merged_twice(f, g, 95, s.engine_es_wear, u.engine_es_wear, fr);
    lemma_merged_twice(f, g, 96, s.engine_ce_wear, u.engine_ce_wear, fr);
    lemma_merged_twice(f, g, 97, s.engine_ice_wear, u.engine_ice_wear, fr);
    lemma_merged_twice(f, g, 98, s.engine_mguk_wear, u.engine_mguk_wear, fr);
    lemma_merged_twice(f, g, 99, s.engine_tc_wear, u.engine_tc_wear, fr);
    lemma_merged_twice(f, g, 100, s.drs_fault, u.drs_fault, fr);
    lemma_merged_twice(f, g, 101, s.ers_fault, u.ers_fault, fr);
    lemma_merged_twice(f, g, 102, s.engine_blown, u.engine_blown, fr);
    lemma_merged_twice(f, g, 103, s.engine_seized, u.engine_seized, fr);
}

/// Offering the same aero update twice gives what offering it once gave.
proof fn lemma_aero_twice(s: AeroState, u: AeroState, f: Seq<Option<u32>>, g: Seq<Option<u32>>, fr: Option<u32>)
    requires
        f.len() == SLOT_COUNT,
        g.len() == SLOT_COUNT,
        forall|i: int| 104 <= i < 112 ==> #[trigger] g[i] == restamped(f, aero_offers(u, i), i, fr),
    ensures
        aero_after(aero_after(s, u, f, fr), u, g, fr) == aero_after(s, u, f, fr),
{
    lemma_merged_twice(f, g, 104, s.mode, u.mode, fr);
    lemma_merged_twice(f, g, 105, s.available, u.available, fr);
    lemma_merged_twice(f, g, 106, s.activation_distance_m, u.activation_distance_m, fr);
    lemma_merged_twice(f, g, 107, s.overtake_available, u.overtake_available, fr);
    lemma_merged_twice(f, g, 108, s.overtake_active, u.overtake_active, fr);
    lemma_merged_twice(f, g, 109, s.overtake_activation_distance_m, u.overtake_activation_distance_m, fr);
    lemma_merged_twice(f, g, 110, s.regulations_2026, u.regulations_2026, fr);
    lemma_merged_twice(f, g, 111, s.driving_wrong_way, u.driving_wrong_way, fr);
}

/// Offering the same navigation update twice gives what offering it once gave.
proof fn lemma_navigation_twice(s: NavigationState, u: NavigationState, f: Seq<Option<u32>>, g: Seq<Option<u32>>, fr: Option<u32>)
    requires
        f.len() == SLOT_COUNT,
        g.len() == SLOT_COUNT,
        forall|i: int| 112 <= i < 115 ==> #[trigger] g[i] == restamped(f, navigation_offers(u, i), i, fr),
    ensures
        navigation_after(navigation_after(s, u, f, fr), u, g, fr) == navigation_after(s, u, f, fr),
{
    lemma_merged_twice(f, g, 112, s.distance_m, u.distance_m, fr);
    lemma_merged_twice(f, g, 113, s.time_s, u.time_s, fr);
    lemma_merged_twice(f, g, 114, s.speed_limit_mps, u.speed_limit_mps, fr);
}

/// Offering the same lights update twice gives what offering it once gave.
proof fn lemma_lights_twice(s: LightsState, u: LightsState, f: Seq<Option<u32>>, g: Seq<Option<u32>>, fr: Option<u32>)
    requires
        f.len() == SLOT_COUNT,
        g.len() == SLOT_COUNT,
        forall|i: int| 115 <= i < 124 ==> #[trigger] g[i] == restamped(f, lights_offers(u, i), i, fr),
    ensures
        lights_after(lights_after(s, u, f, fr), u, g, fr) == lights_after(s, u, f, fr),
{
    lemma_merged_twice(f, g, 115, s.parking, u.parking, fr);
    lemma_merged_twice(f, g, 116, s.low_beam, u.low_beam, fr);
    lemma_merged_twice(f, g, 117, s.high_beam, u.high_beam, fr);
    lemma_merged_twice(f, g, 118, s.beacon, u.beacon, fr);
    lemma_merged_twice(f, g, 119, s.brake, u.brake, fr);
    lemma_merged_twice(f, g, 120, s.reverse, u.reverse, fr);
    lemma_merged_twice(f, g, 121, s.left_indicator, u.left_indicator, fr);
    lemma_merged_twice(f, g, 122, s.right_indicator, u.right_indicator, fr);
    lemma_merged_twice(f, g, 123, s.hazard, u.hazard, fr);
}

/// Offering the same corner update twice gives what offering it once gave.
proof fn lemma_corner_twice(s: Option<TyreCornerState>, u: Option<TyreCornerState>, f: Seq<Option<u32>>, g: Seq<Option<u32>>, base: int, fr: Option<u32>)
    requires
        0 <= base,
        base + 7 <= SLOT_COUNT,
        f.len() == SLOT_COUNT,
        g.len() == SLOT_COUNT,
        forall|i: int| base <= i < base + 7 ==> #[trigger] g[i] == restamped(f, corner_offers(u, base, i), i, fr),
    ensures
        corner_after(corner_after(s, u, f, base, fr), u, g, base, fr) == corner_after(s, u, f, base, fr),
{
    if let Some(v) = u {
        let c = s.unwrap_or(empty_corner());
        let m = corner_merge(c, v, f, base, fr);
        assert(corner_changed(v, g, base, fr) == corner_changed(v, f, base, fr)) by {
            assert(g[base + 0] == restamped(f, corner_offers(u, base, base + 0), base + 0, fr));
            assert(g[base + 1] == restamped(f, corner_offers(u, base, base + 1), base + 1, fr));
            assert(g[base + 2] == restamped(f, corner_offers(u, base, base + 2), base + 2, fr));
            assert(g[base + 3] == restamped(f, corner_offers(u, base, base + 3), base + 3, fr));
            assert(g[base + 4] == restamped(f, corner_offers(u, base, base + 4), base + 4, fr));
            assert(g[base + 5] == restamped(f, corner_offers(u, base, base + 5), base + 5, fr));
            assert(g[base + 6] == restamped(f, corner_offers(u, base, base + 6), base + 6, fr));
        }
        if corner_changed(v, f, base, fr) {
            let c = m;
            assert(g[base + 0] == restamped(f, corner_offers(u, base, base + 0), base + 0, fr));
            assert(g[base + 1] == restamped(f, corner_offers(u, base, base + 1), base + 1, fr));
            assert(g[base + 2] == restamped(f, corner_offers(u, base, base + 2), base + 2, fr));
            assert(g[base + 3] == restamped(f, corner_offers(u, base, base + 3), base + 3, fr));
            assert(g[base + 4] == restamped(f, corner_offers(u, base, base + 4), base + 4, fr));
            assert(g[base + 5] == restamped(f, corner_offers(u, base, base + 5), base + 5, fr));
            assert(g[base + 6] == restamped(f, corner_offers(u, base, base + 6), base + 6, fr));
            let c0 = s.unwrap_or(empty_corner());
            lemma_merged_twice(f, g, base + 0, c0.surface_temperature_c, v.surface_temperature_c, fr);
            lemma_merged_twice(f, g, base + 1, c0.inner_temperature_c, v.inner_temperature_c, fr);
            lemma_merged_twice(f, g, base + 2, c0.pressure_pa, v.pressure_pa, fr);
            lemma_merged_twice(f, g, base + 3, c0.wear, v.wear, fr);
            lemma_merged_twice(f, g, base + 4, c0.damage, v.damage, fr);
            lemma_merged_twice(f, g, base + 5, c0.brake_damage, v.brake_damage, fr);
            lemma_merged_twice(f, g, base + 6, c0.blister, v.blister, fr);
            assert(corner_merge(m, v, g, base, fr) == m);
        }
    }
}

/// Offering the same tyre update twice gives what offering it once gave.
proof fn lemma_tyres_twice(s: TyreState, u: TyreUpdate, f: Seq<Option<u32>>, g: Seq<Option<u32>>, fr: Option<u32>)
    requires
        f.len() == SLOT_COUNT,
        g.len() == SLOT_COUNT,
        forall|i: int| 52 <= i < 83 ==> #[trigger] g[i] == restamped(f, tyres_offers(u, i), i, fr),
    ensures
        tyres_after(tyres_after(s, u, f, fr), u, g, fr) == tyres_after(s, u, f, fr),
{
    assert forall|i: int| 52 <= i < 59 implies #[trigger] g[i] == restamped(f, corner_offers(u.front_left, 52, i), i, fr) by {
        assert(g[i] == restamped(f, tyres_offers(u, i), i, fr));
    }
    assert forall|i: int| 59 <= i < 66 implies #[trigger] g[i] == restamped(f, corner_offers(u.front_right, 59, i), i, fr) by {
        assert(g[i] == restamped(f, tyres_offers(u, i), i, fr));
    }
    assert forall|i: int| 66 <= i < 73 implies #[trigger] g[i] == restamped(f, corner_offers(u.rear_left, 66, i), i, fr) by {
        assert(g[i] == restamped(f, tyres_offers(u, i), i, fr));
    }
    assert forall|i: int| 73 <= i < 80 implies #[trigger] g[i] == restamped(f, corner_offers(u.rear_right, 73, i), i, fr) by {
        assert(g[i] == restamped(f, tyres_offers(u, i), i, fr));
    }
    lemma_corner_twice(s.front_left, u.front_left, f, g, 52, fr);
    lemma_corner_twice(s.front_right, u.front_right, f, g, 59, fr);
    lemma_corner_twice(s.rear_left, u.rear_left, f, g, 66, fr);
    lemma_corner_twice(s.rear_right, u.rear_right, f, g, 73, fr);
    lemma_merged_twice(f, g, 80, s.actual_compound, u.actual_compound, fr);
    lemma_merged_twice(f, g, 81, s.visual_compound, u.visual_compound, fr);
    lemma_merged_twice(f, g, 82, s.age_laps, u.age_laps, fr);
}

/// Offering the same job update twice gives what offering it once gave.
proof fn lemma_job_twice(s: JobState, u: JobState, f: Seq<Option<u32>>, g: Seq<Option<u32>>, fr: Option<u32>)
    requires
        f.len() == SLOT_COUNT,
        g.len() == SLOT_COUNT,
        forall|i: int| 124 <= i < 134 ==> #[trigger] g[i] == job_frames(u, f, fr)[i],
    ensures
        job_after(job_after(s, u, f, fr), u, g, fr) == job_after(s, u, f, fr),
{
    assert(g[124] == job_frames(u, f, fr)[124]);
    if !job_rejected(u, f, fr) && u.active != Some(false) {
        assert forall|i: int| 125 <= i < 134 implies #[trigger] g[i] == restamped(f, job_offers(u, i), i, fr) by {
            assert(g[i] == job_frames(u, f, fr)[i]);
        }
        lemma_merged_text_twice(f, g, 125, s.cargo, u.cargo, fr);
        lemma_merged_twice(f, g, 126, s.cargo_mass_kg, u.cargo_mass_kg, fr);
        lemma_merged_text_twice(f, g, 127, s.source_city, u.source_city, fr);
        lemma_merged_text_twice(f, g, 128, s.destination_city, u.destination_city, fr);
        lemma_merged_twice(f, g, 129, s.income, u.income, fr);
        lemma_merged_twice(f, g, 130, s.delivery_time, u.delivery_time, fr);
        lemma_merged_twice(f, g, 131, s.planned_distance_km, u.planned_distance_km, fr);
        lemma_merged_twice(f, g, 132, s.cargo_loaded, u.cargo_loaded, fr);
        lemma_merged_twice(f, g, 133, s.special, u.special, fr);
    }
}

/// Applying an update a second time changes nothing and reports no change:
/// every value it supplies, extension values included, is either already
/// stored or still older than its field's recorded frame.
pub proof fn law_reapplied_update_changes_nothing(
    pre: TelemetryReducer,
    u: TelemetryUpdate,
    mid: TelemetryReducer,
    first: bool,
    post: TelemetryReducer,
    second: bool,
)
    requires
        pre.well_formed(),
        TelemetryReducer::applied(pre, u, mid, first),
        TelemetryReducer::applied(mid, u, post, second),
    ensures
        !second,
        post.current() == mid.current(),
{
    reveal(groups_applied);
    let s0 = pre.current();
    let reset = is_new_session(s0.meta.session_id, u.session_id);
    let f = if reset { no_frames() } else { pre.frames() };
    let b = if reset { super::reducer::cleared(s0) } else { s0 };
    let g = mid.frames();
    let fr = u.frame_id;
    assert(!is_new_session(mid.current().meta.session_id, u.session_id));
    assert forall|i: int| 0 <= i < 124 implies #[trigger] g[i] == restamped(f, update_offers(u, i), i, fr) by {
    }
    assert forall|i: int| 124 <= i < 134 implies #[trigger] g[i] == job_frames(u.job, f, fr)[i] by {
    }
    assert forall|i: int| 0 <= i < 17 implies #[trigger] g[i] == restamped(f, vehicle_offers(u.vehicle, i), i, fr) by {
        assert(g[i] == restamped(f, update_offers(u, i), i, fr));
    }
    assert forall|i: int| 17 <= i < 44 implies #[trigger] g[i] == restamped(f, lap_offers(u.lap, i), i, fr) by {
        assert(g[i] == restamped(f, update_offers(u, i), i, fr));
    }
    assert forall|i: int| 44 <= i < 52 implies #[trigger] g[i] == restamped(f, session_offers(u.session, i), i, fr) by {
        assert(g[i] == restamped(f, update_offers(u, i), i, fr));
    }
    assert forall|i: int| 52 <= i < 83 implies #[trigger] g[i] == restamped(f, tyres_offers(u.tyres, i), i, fr) by {
        assert(g[i] == restamped(f, update_offers(u, i), i, fr));
    }
    assert forall|i: int| 83 <= i < 86 implies #[trigger] g[i] == restamped(f, conditions_offers(u.conditions, i), i, fr) by {
        assert(g[i] == restamped(f, update_offers(u, i), i, fr));
    }
    assert forall|i: int| 86 <= i < 104 implies #[trigger] g[i] == restamped(f, damage_offers(u.damage, i), i, fr) by {
        assert(g[i] == restamped(f, update_offers(u, i), i, fr));
    }
    assert forall|i: int| 104 <= i < 112 implies #[trigger] g[i] == restamped(f, aero_offers(u.aero, i), i, fr) by {
        assert(g[i] == restamped(f, update_offers(u, i), i, fr));
    }
    assert forall|i: int| 112 <= i < 115 implies #[trigger] g[i] == restamped(f, navigation_offers(u.navigation, i), i, fr) by {
        assert(g[i] == restamped(f, update_offers(u, i), i, fr));
    }
    assert forall|i: int| 115 <= i < 124 implies #[trigger] g[i] == restamped(f, lights_offers(u.lights, i), i, fr) by {
        assert(g[i] == restamped(f, update_offers(u, i), i, fr));
    }
    lemma_vehicle_twice(b.vehicle, u.vehicle, f, g, fr);
    lemma_lap_twice(b.lap, u.lap, f, g, fr);
    lemma_session_twice(b.session, u.session, f, g, fr);
    lemma_tyres_twice(b.tyres, u.tyres, f, g, fr);
    lemma_conditions_twice(b.conditions, u.conditions, f, g, fr);
    lemma_damage_twice(b.damage, u.damage, f, g, fr);
    lemma_aero_twice(b.aero, u.aero, f, g, fr);
    lemma_navigation_twice(b.navigation, u.navigation, f, g, fr);
    lemma_lights_twice(b.lights, u.lights, f, g, fr);
    lemma_job_twice(b.job, u.job, f, g, fr);
    assert forall|k: Seq<char>| !#[trigger] extension_written(u.extensions@, mid.namespace_frames(), mid.current().extensions@, k, fr) by {
        assert(lookup(mid.namespace_frames(), k) == lookup(mid.namespace_frames(), k));
        assert(lookup(mid.current().extensions@, k) == lookup(mid.current().extensions@, k));
    }
}

} // verus!
