use vstd::prelude::*;

use super::extensions::lookup;
use super::frames::admits;
use super::groups::{empty_corner, job_offers, SLOT_COUNT};
use super::model::MonotonicTimestamp;
use super::reducer::{
    groups_applied, is_new_session, same_groups, update_offers, TelemetryReducer,
};
use super::extensions::extensions_changed;
use super::state::{TelemetrySnapshot, TelemetryUpdate};

verus! {

/// Whether `u` supplies a value for field slot `i`, the job's included.
pub open spec fn offers(u: TelemetryUpdate, i: int) -> bool {
    update_offers(u, i) || job_offers(u.job, i)
}

/// Whether every value that `u` supplies is older than the frame its field
/// recorded in `frames`.
pub open spec fn stale_against(u: TelemetryUpdate, frames: Seq<Option<u32>>) -> bool {
    forall|i: int| #![trigger frames[i]] 0 <= i < SLOT_COUNT && offers(u, i) ==> !admits(frames[i], u.frame_id)
}

/// An update of the current session whose every value is older than what its
/// field recorded changes no field and no recorded frame.
pub proof fn law_older_frames_never_overwrite(
    pre: TelemetryReducer,
    u: TelemetryUpdate,
    post: TelemetryReducer,
    changed: bool,
)
    requires
        pre.well_formed(),
        TelemetryReducer::applied(pre, u, post, changed),
        !is_new_session(pre.current().meta.session_id, u.session_id),
        stale_against(u, pre.frames()),
    ensures
        same_groups(post.current(), pre.current()),
        post.frames() == pre.frames(),
{
    reveal(groups_applied);
    let bf = pre.frames();
    assert(post.frames() =~= pre.frames());
}

/// Whether `u` completes the delivery job with a frame that its recorded frames admit.
pub open spec fn completes_job(u: TelemetryUpdate, frames: Seq<Option<u32>>) -> bool {
    u.job.active == Some(false) && admits(frames[124], u.frame_id)
}

/// A new session forgets everything of the old one: two reducers of the same
/// game that both see `u` open a new session end in the same state, whatever
/// they held before.
pub proof fn law_new_session_clears_stale_state(
    pre1: TelemetryReducer,
    pre2: TelemetryReducer,
    u: TelemetryUpdate,
    post1: TelemetryReducer,
    changed1: bool,
    post2: TelemetryReducer,
    changed2: bool,
)
    requires
        pre1.well_formed(),
        pre2.well_formed(),
        pre1.current().meta.game_id == pre2.current().meta.game_id,
        is_new_session(pre1.current().meta.session_id, u.session_id),
        is_new_session(pre2.current().meta.session_id, u.session_id),
        TelemetryReducer::applied(pre1, u, post1, changed1),
        TelemetryReducer::applied(pre2, u, post2, changed2),
    ensures
        changed1 && changed2,
        post1.current().meta == post2.current().meta,
        same_groups(post1.current(), post2.current()),
        post1.frames() == post2.frames(),
        forall|k: Seq<char>| #[trigger] lookup(post1.current().extensions@, k) == lookup(post2.current().extensions@, k),
        forall|k: Seq<char>| #[trigger] lookup(post1.namespace_frames(), k) == lookup(post2.namespace_frames(), k),
{
    reveal(groups_applied);
}

/// An update that carries nothing changes nothing.
pub proof fn law_empty_update_changes_nothing(
    pre: TelemetryReducer,
    u: TelemetryUpdate,
    received_at: MonotonicTimestamp,
    post: TelemetryReducer,
    changed: bool,
)
    requires
        pre.well_formed(),
        u.is_empty_at(received_at),
        TelemetryReducer::applied(pre, u, post, changed),
    ensures
        !changed,
        post.current().meta == pre.current().meta,
        same_groups(post.current(), pre.current()),
        post.frames() == pre.frames(),
        forall|k: Seq<char>| #[trigger] lookup(post.current().extensions@, k) == lookup(pre.current().extensions@, k),
        forall|k: Seq<char>| #[trigger] lookup(post.namespace_frames(), k) == lookup(pre.namespace_frames(), k),
{
    reveal(groups_applied);
    assert(post.frames() =~= pre.frames());
}

/// Within one session the snapshot sequence and capture time never run
/// backwards, and every change advances the sequence by one until it saturates.
pub proof fn law_sequence_and_capture_time_advance(
    pre: TelemetryReducer,
    u: TelemetryUpdate,
    post: TelemetryReducer,
    changed: bool,
)
    requires
        pre.well_formed(),
        !is_new_session(pre.current().meta.session_id, u.session_id),
        TelemetryReducer::applied(pre, u, post, changed),
    ensures
        post.current().meta.sequence >= pre.current().meta.sequence,
        changed && pre.current().meta.sequence < u64::MAX ==> post.current().meta.sequence
            == pre.current().meta.sequence + 1,
        !changed ==> post.current().meta == pre.current().meta,
        pre.current().meta.captured_at matches Some(t) ==> (post.current().meta.captured_at matches Some(
            t2,
        ) && t2.micros() >= t.micros()),
        changed ==> (post.current().meta.captured_at matches Some(t2) && t2.micros()
            >= u.received_at.micros()),
{
}

/// Within one session a field's recorded frame only moves to the update's
/// frame, and only when that frame is at least as new; a completed job also
/// stamps its details.
pub proof fn law_recorded_frames_only_move_forward(
    pre: TelemetryReducer,
    u: TelemetryUpdate,
    post: TelemetryReducer,
    changed: bool,
)
    requires
        pre.well_formed(),
        !is_new_session(pre.current().meta.session_id, u.session_id),
        TelemetryReducer::applied(pre, u, post, changed),
    ensures
        forall|i: int|
            0 <= i < SLOT_COUNT ==> #[trigger] post.frames()[i] == pre.frames()[i] || (u.frame_id is Some
                && post.frames()[i] == u.frame_id && (admits(pre.frames()[i], u.frame_id) || (125 <= i
                < 134 && completes_job(u, pre.frames())))),
{
}

/// An update reports a change exactly when it opens a new session, writes a
/// field value that differs from the stored one, or writes an extension
/// value; an update that reports none leaves the whole snapshot as it was.
pub proof fn law_no_change_leaves_snapshot_equal(
    pre: TelemetryReducer,
    u: TelemetryUpdate,
    post: TelemetryReducer,
    changed: bool,
)
    requires
        pre.well_formed(),
        TelemetryReducer::applied(pre, u, post, changed),
    ensures
        changed == (is_new_session(pre.current().meta.session_id, u.session_id)
            || !same_groups(post.current(), pre.current())
            || extensions_changed(u.extensions@, pre.namespace_frames(), pre.current().extensions@, u.frame_id)),
        !changed ==> post.current() == pre.current(),
{
}

/// Whether snapshots `a` and `b` hold the same value in the field tracked by
/// slot `i`; a tyre corner that is absent reads as a corner with nothing known.
pub open spec fn slot_kept(a: TelemetrySnapshot, b: TelemetrySnapshot, i: int) -> bool {
    if i == 0 {
        a.vehicle.speed_mps == b.vehicle.speed_mps
    } else if i == 1 {
        a.vehicle.gear == b.vehicle.gear
    } else if i == 2 {
        a.vehicle.rpm == b.vehicle.rpm
    } else if i == 3 {
        a.vehicle.rpm_max == b.vehicle.rpm_max
    } else if i == 4 {
        a.vehicle.rev_lights == b.vehicle.rev_lights
    } else if i == 5 {
        a.vehicle.throttle == b.vehicle.throttle
    } else if i == 6 {
        a.vehicle.brake == b.vehicle.brake
    } else if i == 7 {
        a.vehicle.drs == b.vehicle.drs
    } else if i == 8 {
        a.vehicle.fuel_kg == b.vehicle.fuel_kg
    } else if i == 9 {
        a.vehicle.fuel_capacity_kg == b.vehicle.fuel_capacity_kg
    } else if i == 10 {
        a.vehicle.fuel_remaining_laps == b.vehicle.fuel_remaining_laps
    } else if i == 11 {
        a.vehicle.fuel_liters == b.vehicle.fuel_liters
    } else if i == 12 {
        a.vehicle.fuel_capacity_liters == b.vehicle.fuel_capacity_liters
    } else if i == 13 {
        a.vehicle.fuel_range_km == b.vehicle.fuel_range_km
    } else if i == 14 {
        a.vehicle.fuel_warning == b.vehicle.fuel_warning
    } else if i == 15 {
        a.vehicle.pit_limiter == b.vehicle.pit_limiter
    } else if i == 16 {
        a.vehicle.ers_energy_j == b.vehicle.ers_energy_j
    } else if i == 17 {
        a.lap.current == b.lap.current
    } else if i == 18 {
        a.lap.position == b.lap.position
    } else if i == 19 {
        a.lap.current_time_ms == b.lap.current_time_ms
    } else if i == 20 {
        a.lap.last_time_ms == b.lap.last_time_ms
    } else if i == 21 {
        a.lap.delta_to_best_ms == b.lap.delta_to_best_ms
    } else if i == 22 {
        a.lap.invalid == b.lap.invalid
    } else if i == 23 {
        a.lap.sector == b.lap.sector
    } else if i == 24 {
        a.lap.sector1_time_ms == b.lap.sector1_time_ms
    } else if i == 25 {
        a.lap.sector2_time_ms == b.lap.sector2_time_ms
    } else if i == 26 {
        a.lap.delta_to_car_in_front_ms == b.lap.delta_to_car_in_front_ms
    } else if i == 27 {
        a.lap.delta_to_race_leader_ms == b.lap.delta_to_race_leader_ms
    } else if i == 28 {
        a.lap.distance_m == b.lap.distance_m
    } else if i == 29 {
        a.lap.total_distance_m == b.lap.total_distance_m
    } else if i == 30 {
        a.lap.safety_car_delta_ms == b.lap.safety_car_delta_ms
    } else if i == 31 {
        a.lap.pit_status == b.lap.pit_status
    } else if i == 32 {
        a.lap.pit_stops == b.lap.pit_stops
    } else if i == 33 {
        a.lap.penalties_seconds == b.lap.penalties_seconds
    } else if i == 34 {
        a.lap.warnings == b.lap.warnings
    } else if i == 35 {
        a.lap.corner_cutting_warnings == b.lap.corner_cutting_warnings
    } else if i == 36 {
        a.lap.unserved_drive_through_penalties == b.lap.unserved_drive_through_penalties
    } else if i == 37 {
        a.lap.unserved_stop_go_penalties == b.lap.unserved_stop_go_penalties
    } else if i == 38 {
        a.lap.grid_position == b.lap.grid_position
    } else if i == 39 {
        a.lap.driver_status == b.lap.driver_status
    } else if i == 40 {
        a.lap.result_status == b.lap.result_status
    } else if i == 41 {
        a.lap.pit_lane_time_ms == b.lap.pit_lane_time_ms
    } else if i == 42 {
        a.lap.pit_stop_time_ms == b.lap.pit_stop_time_ms
    } else if i == 43 {
        a.lap.pit_stop_should_serve_penalty == b.lap.pit_stop_should_serve_penalty
    } else if i == 44 {
        a.session.track_id == b.session.track_id
    } else if i == 45 {
        a.session.remaining_time_ms == b.session.remaining_time_ms
    } else if i == 46 {
        a.session.total_laps == b.session.total_laps
    } else if i == 47 {
        a.session.session_type == b.session.session_type
    } else if i == 48 {
        a.session.track_length_m == b.session.track_length_m
    } else if i == 49 {
        a.session.pit_speed_limit_mps == b.session.pit_speed_limit_mps
    } else if i == 50 {
        a.session.safety_car_status == b.session.safety_car_status
    } else if i == 51 {
        a.session.race_flag == b.session.race_flag
    } else if i == 52 {
        a.tyres.front_left.unwrap_or(empty_corner()).surface_temperature_c == b.tyres.front_left.unwrap_or(empty_corner()).surface_temperature_c
    } else if i == 53 {
        a.tyres.front_left.unwrap_or(empty_corner()).inner_temperature_c == b.tyres.front_left.unwrap_or(empty_corner()).inner_temperature_c
    } else if i == 54 {
        a.tyres.front_left.unwrap_or(empty_corner()).pressure_pa == b.tyres.front_left.unwrap_or(empty_corner()).pressure_pa
    } else if i == 55 {
        a.tyres.front_left.unwrap_or(empty_corner()).wear == b.tyres.front_left.unwrap_or(empty_corner()).wear
    } else if i == 56 {
        a.tyres.front_left.unwrap_or(empty_corner()).damage == b.tyres.front_left.unwrap_or(empty_corner()).damage
    } else if i == 57 {
        a.tyres.front_left.unwrap_or(empty_corner()).brake_damage == b.tyres.front_left.unwrap_or(empty_corner()).brake_damage
    } else if i == 58 {
        a.tyres.front_left.unwrap_or(empty_corner()).blister == b.tyres.front_left.unwrap_or(empty_corner()).blister
    } else if i == 59 {
        a.tyres.front_right.unwrap_or(empty_corner()).surface_temperature_c == b.tyres.front_right.unwrap_or(empty_corner()).surface_temperature_c
    } else if i == 60 {
        a.tyres.front_right.unwrap_or(empty_corner()).inner_temperature_c == b.tyres.front_right.unwrap_or(empty_corner()).inner_temperature_c
    } else if i == 61 {
        a.tyres.front_right.unwrap_or(empty_corner()).pressure_pa == b.tyres.front_right.unwrap_or(empty_corner()).pressure_pa
    } else if i == 62 {
        a.tyres.front_right.unwrap_or(empty_corner()).wear == b.tyres.front_right.unwrap_or(empty_corner()).wear
    } else if i == 63 {
        a.tyres.front_right.unwrap_or(empty_corner()).damage == b.tyres.front_right.unwrap_or(empty_corner()).damage
    } else if i == 64 {
        a.tyres.front_right.unwrap_or(empty_corner()).brake_damage == b.tyres.front_right.unwrap_or(empty_corner()).brake_damage
    } else if i == 65 {
        a.tyres.front_right.unwrap_or(empty_corner()).blister == b.tyres.front_right.unwrap_or(empty_corner()).blister
    } else if i == 66 {
        a.tyres.rear_left.unwrap_or(empty_corner()).surface_temperature_c == b.tyres.rear_left.unwrap_or(empty_corner()).surface_temperature_c
    } else if i == 67 {
        a.tyres.rear_left.unwrap_or(empty_corner()).inner_temperature_c == b.tyres.rear_left.unwrap_or(empty_corner()).inner_temperature_c
    } else if i == 68 {
        a.tyres.rear_left.unwrap_or(empty_corner()).pressure_pa == b.tyres.rear_left.unwrap_or(empty_corner()).pressure_pa
    } else if i == 69 {
        a.tyres.rear_left.unwrap_or(empty_corner()).wear == b.tyres.rear_left.unwrap_or(empty_corner()).wear
    } else if i == 70 {
        a.tyres.rear_left.unwrap_or(empty_corner()).damage == b.tyres.rear_left.unwrap_or(empty_corner()).damage
    } else if i == 71 {
        a.tyres.rear_left.unwrap_or(empty_corner()).brake_damage == b.tyres.rear_left.unwrap_or(empty_corner()).brake_damage
    } else if i == 72 {
        a.tyres.rear_left.unwrap_or(empty_corner()).blister == b.tyres.rear_left.unwrap_or(empty_corner()).blister
    } else if i == 73 {
        a.tyres.rear_right.unwrap_or(empty_corner()).surface_temperature_c == b.tyres.rear_right.unwrap_or(empty_corner()).surface_temperature_c
    } else if i == 74 {
        a.tyres.rear_right.unwrap_or(empty_corner()).inner_temperature_c == b.tyres.rear_right.unwrap_or(empty_corner()).inner_temperature_c
    } else if i == 75 {
        a.tyres.rear_right.unwrap_or(empty_corner()).pressure_pa == b.tyres.rear_right.unwrap_or(empty_corner()).pressure_pa
    } else if i == 76 {
        a.tyres.rear_right.unwrap_or(empty_corner()).wear == b.tyres.rear_right.unwrap_or(empty_corner()).wear
    } else if i == 77 {
        a.tyres.rear_right.unwrap_or(empty_corner()).damage == b.tyres.rear_right.unwrap_or(empty_corner()).damage
    } else if i == 78 {
        a.tyres.rear_right.unwrap_or(empty_corner()).brake_damage == b.tyres.rear_right.unwrap_or(empty_corner()).brake_damage
    } else if i == 79 {
        a.tyres.rear_right.unwrap_or(empty_corner()).blister == b.tyres.rear_right.unwrap_or(empty_corner()).blister
    } else if i == 80 {
        a.tyres.actual_compound == b.tyres.actual_compound
    } else if i == 81 {
        a.tyres.visual_compound == b.tyres.visual_compound
    } else if i == 82 {
        a.tyres.age_laps == b.tyres.age_laps
    } else if i == 83 {
        a.conditions.weather == b.conditions.weather
    } else if i == 84 {
        a.conditions.track_temperature_c == b.conditions.track_temperature_c
    } else if i == 85 {
        a.conditions.air_temperature_c == b.conditions.air_temperature_c
    } else if i == 86 {
        a.damage.front_left_wing == b.damage.front_left_wing
    } else if i == 87 {
        a.damage.front_right_wing == b.damage.front_right_wing
    } else if i == 88 {
        a.damage.rear_wing == b.damage.rear_wing
    } else if i == 89 {
        a.damage.floor == b.damage.floor
    } else if i == 90 {
        a.damage.diffuser == b.damage.diffuser
    } else if i == 91 {
        a.damage.sidepod == b.damage.sidepod
    } else if i == 92 {
        a.damage.gearbox == b.damage.gearbox
    } else if i == 93 {
        a.damage.engine == b.damage.engine
    } else if i == 94 {
        a.damage.engine_mguh_wear == b.damage.engine_mguh_wear
    } else if i == 95 {
        a.damage.engine_es_wear == b.damage.engine_es_wear
    } else if i == 96 {
        a.damage.engine_ce_wear == b.damage.engine_ce_wear
    } else if i == 97 {
        a.damage.engine_ice_wear == b.damage.engine_ice_wear
    } else if i == 98 {
        a.damage.engine_mguk_wear == b.damage.engine_mguk_wear
    } else if i == 99 {
        a.damage.engine_tc_wear == b.damage.engine_tc_wear
    } else if i == 100 {
        a.damage.drs_fault == b.damage.drs_fault
    } else if i == 101 {
        a.damage.ers_fault == b.damage.ers_fault
    } else if i == 102 {
        a.damage.engine_blown == b.damage.engine_blown
    } else if i == 103 {
        a.damage.engine_seized == b.damage.engine_seized
    } else if i == 104 {
        a.aero.mode == b.aero.mode
    } else if i == 105 {
        a.aero.available == b.aero.available
    } else if i == 106 {
        a.aero.activation_distance_m == b.aero.activation_distance_m
    } else if i == 107 {
        a.aero.overtake_available == b.aero.overtake_available
    } else if i == 108 {
        a.aero.overtake_active == b.aero.overtake_active
    } else if i == 109 {
        a.aero.overtake_activation_distance_m == b.aero.overtake_activation_distance_m
    } else if i == 110 {
        a.aero.regulations_2026 == b.aero.regulations_2026
    } else if i == 111 {
        a.aero.driving_wrong_way == b.aero.driving_wrong_way
    } else if i == 112 {
        a.navigation.distance_m == b.navigation.distance_m
    } else if i == 113 {
        a.navigation.time_s == b.navigation.time_s
    } else if i == 114 {
        a.navigation.speed_limit_mps == b.navigation.speed_limit_mps
    } else if i == 115 {
        a.lights.parking == b.lights.parking
    } else if i == 116 {
        a.lights.low_beam == b.lights.low_beam
    } else if i == 117 {
        a.lights.high_beam == b.lights.high_beam
    } else if i == 118 {
        a.lights.beacon == b.lights.beacon
    } else if i == 119 {
        a.lights.brake == b.lights.brake
    } else if i == 120 {
        a.lights.reverse == b.lights.reverse
    } else if i == 121 {
        a.lights.left_indicator == b.lights.left_indicator
    } else if i == 122 {
        a.lights.right_indicator == b.lights.right_indicator
    } else if i == 123 {
        a.lights.hazard == b.lights.hazard
    } else if i == 124 {
        a.job.active == b.job.active
    } else if i == 125 {
        a.job.cargo == b.job.cargo
    } else if i == 126 {
        a.job.cargo_mass_kg == b.job.cargo_mass_kg
    } else if i == 127 {
        a.job.source_city == b.job.source_city
    } else if i == 128 {
        a.job.destination_city == b.job.destination_city
    } else if i == 129 {
        a.job.income == b.job.income
    } else if i == 130 {
        a.job.delivery_time == b.job.delivery_time
    } else if i == 131 {
        a.job.planned_distance_km == b.job.planned_distance_km
    } else if i == 132 {
        a.job.cargo_loaded == b.job.cargo_loaded
    } else if i == 133 {
        a.job.special == b.job.special
    } else {
        true
    }
}

/// Within one session, a field keeps its value unless the update supplies a
/// value for it whose frame its recorded frame admits (a frameless value is
/// always admitted); an admitted completion of the job, which clears every
/// job field, is the one exception.
pub proof fn law_unwritten_fields_keep_their_values(
    pre: TelemetryReducer,
    u: TelemetryUpdate,
    post: TelemetryReducer,
    changed: bool,
)
    requires
        pre.well_formed(),
        !is_new_session(pre.current().meta.session_id, u.session_id),
        TelemetryReducer::applied(pre, u, post, changed),
    ensures
        forall|i: int|
            0 <= i < SLOT_COUNT && (!offers(u, i) || !admits(pre.frames()[i], u.frame_id)) && !(124 <= i < 134
                && completes_job(u, pre.frames())) ==> #[trigger] slot_kept(pre.current(), post.current(), i),
{
    reveal(groups_applied);
}

} // verus!
