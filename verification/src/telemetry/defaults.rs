use vstd::prelude::*;

use super::model::{DrsState, Gear, MonotonicTimestamp, TELEMETRY_SCHEMA_VERSION};
use super::state::{
    AeroState, ConditionsState, DamageState, JobState, LapState, LightsState, Meta, NavigationState,
    SessionState, SessionUpdate, TelemetrySnapshot, TelemetryUpdate, TyreCornerState, TyreState,
    VehicleState, VehicleUpdate,
};

verus! {

impl VehicleState {
    /// The value with nothing known.
    pub open spec fn empty() -> VehicleState {
        VehicleState {
            speed_mps: None,
            gear: Gear::Unknown,
            rpm: None,
            rpm_max: None,
            rev_lights: None,
            throttle: None,
            brake: None,
            drs: DrsState::Unknown,
            fuel_kg: None,
            fuel_capacity_kg: None,
            fuel_remaining_laps: None,
            fuel_liters: None,
            fuel_capacity_liters: None,
            fuel_range_km: None,
            fuel_warning: None,
            pit_limiter: None,
            ers_energy_j: None,
        }
    }
}

impl Default for MonotonicTimestamp {
    /// The Host clock origin.
    fn default() -> (t: MonotonicTimestamp)
        ensures
            t == MonotonicTimestamp::of_micros(0),
    {
        MonotonicTimestamp::from_micros(0)
    }
}

impl Default for VehicleState {
    fn default() -> (r: VehicleState)
        ensures
            r == VehicleState::empty(),
    {
        VehicleState {
            speed_mps: None,
            gear: Gear::Unknown,
            rpm: None,
            rpm_max: None,
            rev_lights: None,
            throttle: None,
            brake: None,
            drs: DrsState::Unknown,
            fuel_kg: None,
            fuel_capacity_kg: None,
            fuel_remaining_laps: None,
            fuel_liters: None,
            fuel_capacity_liters: None,
            fuel_range_km: None,
            fuel_warning: None,
            pit_limiter: None,
            ers_energy_j: None,
        }
    }
}

impl LapState {
    /// The value with nothing known.
    pub open spec fn empty() -> LapState {
        LapState {
            current: None,
            position: None,
            current_time_ms: None,
            last_time_ms: None,
            delta_to_best_ms: None,
            invalid: None,
            sector: None,
            sector1_time_ms: None,
            sector2_time_ms: None,
            delta_to_car_in_front_ms: None,
            delta_to_race_leader_ms: None,
            distance_m: None,
            total_distance_m: None,
            safety_car_delta_ms: None,
            pit_status: None,
            pit_stops: None,
            penalties_seconds: None,
            warnings: None,
            corner_cutting_warnings: None,
            unserved_drive_through_penalties: None,
            unserved_stop_go_penalties: None,
            grid_position: None,
            driver_status: None,
            result_status: None,
            pit_lane_time_ms: None,
            pit_stop_time_ms: None,
            pit_stop_should_serve_penalty: None,
        }
    }
}

impl Default for LapState {
    fn default() -> (r: LapState)
        ensures
            r == LapState::empty(),
    {
        LapState {
            current: None,
            position: None,
            current_time_ms: None,
            last_time_ms: None,
            delta_to_best_ms: None,
            invalid: None,
            sector: None,
            sector1_time_ms: None,
            sector2_time_ms: None,
            delta_to_car_in_front_ms: None,
            delta_to_race_leader_ms: None,
            distance_m: None,
            total_distance_m: None,
            safety_car_delta_ms: None,
            pit_status: None,
            pit_stops: None,
            penalties_seconds: None,
            warnings: None,
            corner_cutting_warnings: None,
            unserved_drive_through_penalties: None,
            unserved_stop_go_penalties: None,
            grid_position: None,
            driver_status: None,
            result_status: None,
            pit_lane_time_ms: None,
            pit_stop_time_ms: None,
            pit_stop_should_serve_penalty: None,
        }
    }
}

impl SessionState {
    /// The value with nothing known.
    pub open spec fn empty() -> SessionState {
        SessionState {
            track_id: None,
            remaining_time_ms: None,
            total_laps: None,
            session_type: None,
            track_length_m: None,
            pit_speed_limit_mps: None,
            safety_car_status: None,
            race_flag: None,
        }
    }
}

impl Default for SessionState {
    fn default() -> (r: SessionState)
        ensures
            r == SessionState::empty(),
    {
        SessionState {
            track_id: None,
            remaining_time_ms: None,
            total_laps: None,
            session_type: None,
            track_length_m: None,
            pit_speed_limit_mps: None,
            safety_car_status: None,
            race_flag: None,
        }
    }
}

impl TyreCornerState {
    /// The value with nothing known.
    pub open spec fn empty() -> TyreCornerState {
        TyreCornerState {
            surface_temperature_c: None,
            inner_temperature_c: None,
            pressure_pa: None,
            wear: None,
            damage: None,
            brake_damage: None,
            blister: None,
        }
    }
}

impl Default for TyreCornerState {
    fn default() -> (r: TyreCornerState)
        ensures
            r == TyreCornerState::empty(),
    {
        TyreCornerState {
            surface_temperature_c: None,
            inner_temperature_c: None,
            pressure_pa: None,
            wear: None,
            damage: None,
            brake_damage: None,
            blister: None,
        }
    }
}

impl TyreState {
    /// The value with nothing known.
    pub open spec fn empty() -> TyreState {
        TyreState {
            front_left: None,
            front_right: None,
            rear_left: None,
            rear_right: None,
            actual_compound: None,
            visual_compound: None,
            age_laps: None,
        }
    }
}

impl Default for TyreState {
    fn default() -> (r: TyreState)
        ensures
            r == TyreState::empty(),
    {
        TyreState {
            front_left: None,
            front_right: None,
            rear_left: None,
            rear_right: None,
            actual_compound: None,
            visual_compound: None,
            age_laps: None,
        }
    }
}

impl ConditionsState {
    /// The value with nothing known.
    pub open spec fn empty() -> ConditionsState {
        ConditionsState {
            weather: None,
            track_temperature_c: None,
            air_temperature_c: None,
        }
    }
}

impl Default for ConditionsState {
    fn default() -> (r: ConditionsState)
        ensures
            r == ConditionsState::empty(),
    {
        ConditionsState {
            weather: None,
            track_temperature_c: None,
            air_temperature_c: None,
        }
    }
}

impl DamageState {
    /// The value with nothing known.
    pub open spec fn empty() -> DamageState {
        DamageState {
            front_left_wing: None,
            front_right_wing: None,
            rear_wing: None,
            floor: None,
            diffuser: None,
            sidepod: None,
            gearbox: None,
            engine: None,
            engine_mguh_wear: None,
            engine_es_wear: None,
            engine_ce_wear: None,
            engine_ice_wear: None,
            engine_mguk_wear: None,
            engine_tc_wear: None,
            drs_fault: None,
            ers_fault: None,
            engine_blown: None,
            engine_seized: None,
        }
    }
}

impl Default for DamageState {
    fn default() -> (r: DamageState)
        ensures
            r == DamageState::empty(),
    {
        DamageState {
            front_left_wing: None,
            front_right_wing: None,
            rear_wing: None,
            floor: None,
            diffuser: None,
            sidepod: None,
            gearbox: None,
            engine: None,
            engine_mguh_wear: None,
            engine_es_wear: None,
            engine_ce_wear: None,
            engine_ice_wear: None,
            engine_mguk_wear: None,
            engine_tc_wear: None,
            drs_fault: None,
            ers_fault: None,
            engine_blown: None,
            engine_seized: None,
        }
    }
}

impl AeroState {
    /// The value with nothing known.
    pub open spec fn empty() -> AeroState {
        AeroState {
            mode: None,
            available: None,
            activation_distance_m: None,
            overtake_available: None,
            overtake_active: None,
            overtake_activation_distance_m: None,
            regulations_2026: None,
            driving_wrong_way: None,
        }
    }
}

impl Default for AeroState {
    fn default() -> (r: AeroState)
        ensures
            r == AeroState::empty(),
    {
        AeroState {
            mode: None,
            available: None,
            activation_distance_m: None,
            overtake_available: None,
            overtake_active: None,
            overtake_activation_distance_m: None,
            regulations_2026: None,
            driving_wrong_way: None,
        }
    }
}

impl NavigationState {
    /// The value with nothing known.
    pub open spec fn empty() -> NavigationState {
        NavigationState {
            distance_m: None,
            time_s: None,
            speed_limit_mps: None,
        }
    }
}

impl Default for NavigationState {
    fn default() -> (r: NavigationState)
        ensures
            r == NavigationState::empty(),
    {
        NavigationState {
            distance_m: None,
            time_s: None,
            speed_limit_mps: None,
        }
    }
}

impl LightsState {
    /// The value with nothing known.
    pub open spec fn empty() -> LightsState {
        LightsState {
            parking: None,
            low_beam: None,
            high_beam: None,
            beacon: None,
            brake: None,
            reverse: None,
            left_indicator: None,
            right_indicator: None,
            hazard: None,
        }
    }
}

impl Default for LightsState {
    fn default() -> (r: LightsState)
        ensures
            r == LightsState::empty(),
    {
        LightsState {
            parking: None,
            low_beam: None,
            high_beam: None,
            beacon: None,
            brake: None,
            reverse: None,
            left_indicator: None,
            right_indicator: None,
            hazard: None,
        }
    }
}

impl JobState {
    /// The value with nothing known.
    pub open spec fn empty() -> JobState {
        JobState {
            active: None,
            cargo: None,
            cargo_mass_kg: None,
            source_city: None,
            destination_city: None,
            income: None,
            delivery_time: None,
            planned_distance_km: None,
            cargo_loaded: None,
            special: None,
        }
    }
}

impl Default for JobState {
    fn default() -> (r: JobState)
        ensures
            r == JobState::empty(),
    {
        JobState {
            active: None,
            cargo: None,
            cargo_mass_kg: None,
            source_city: None,
            destination_city: None,
            income: None,
            delivery_time: None,
            planned_distance_km: None,
            cargo_loaded: None,
            special: None,
        }
    }
}

impl Meta {
    /// The value with nothing known.
    pub open spec fn empty() -> Meta {
        Meta {
            schema_version: TELEMETRY_SCHEMA_VERSION,
            game_id: None,
            session_id: None,
            sequence: 0,
            captured_at: None,
        }
    }
}

impl Default for Meta {
    fn default() -> (r: Meta)
        ensures
            r == Meta::empty(),
    {
        Meta {
            schema_version: TELEMETRY_SCHEMA_VERSION,
            game_id: None,
            session_id: None,
            sequence: 0,
            captured_at: None,
        }
    }
}

impl VehicleUpdate {
    /// The value with nothing known.
    pub open spec fn empty() -> VehicleUpdate {
        VehicleUpdate {
            speed_mps: None,
            gear: None,
            rpm: None,
            rpm_max: None,
            rev_lights: None,
            throttle: None,
            brake: None,
            drs: None,
            fuel_kg: None,
            fuel_capacity_kg: None,
            fuel_remaining_laps: None,
            fuel_liters: None,
            fuel_capacity_liters: None,
            fuel_range_km: None,
            fuel_warning: None,
            pit_limiter: None,
            ers_energy_j: None,
        }
    }
}

impl Default for VehicleUpdate {
    fn default() -> (r: VehicleUpdate)
        ensures
            r == VehicleUpdate::empty(),
    {
        VehicleUpdate {
            speed_mps: None,
            gear: None,
            rpm: None,
            rpm_max: None,
            rev_lights: None,
            throttle: None,
            brake: None,
            drs: None,
            fuel_kg: None,
            fuel_capacity_kg: None,
            fuel_remaining_laps: None,
            fuel_liters: None,
            fuel_capacity_liters: None,
            fuel_range_km: None,
            fuel_warning: None,
            pit_limiter: None,
            ers_energy_j: None,
        }
    }
}

impl SessionUpdate {
    /// The value with nothing known.
    pub open spec fn empty() -> SessionUpdate {
        SessionUpdate {
            track_id: None,
            remaining_time_ms: None,
            total_laps: None,
            session_type: None,
            track_length_m: None,
            pit_speed_limit_mps: None,
            safety_car_status: None,
            race_flag: None,
        }
    }
}

impl Default for SessionUpdate {
    fn default() -> (r: SessionUpdate)
        ensures
            r == SessionUpdate::empty(),
    {
        SessionUpdate {
            track_id: None,
            remaining_time_ms: None,
            total_laps: None,
            session_type: None,
            track_length_m: None,
            pit_speed_limit_mps: None,
            safety_car_status: None,
            race_flag: None,
        }
    }
}

impl ConditionsState {
    /// Whether no field is known.
    pub fn is_empty(&self) -> (b: bool)
        ensures
            b == (self.weather is None && self.track_temperature_c is None && self.air_temperature_c is None),
    {
        self.weather.is_none()
            && self.track_temperature_c.is_none()
            && self.air_temperature_c.is_none()
    }
}

impl DamageState {
    /// Whether no field is known.
    pub fn is_empty(&self) -> (b: bool)
        ensures
            b == (self.front_left_wing is None && self.front_right_wing is None && self.rear_wing is None && self.floor is None && self.diffuser is None && self.sidepod is None && self.gearbox is None && self.engine is None && self.engine_mguh_wear is None && self.engine_es_wear is None && self.engine_ce_wear is None && self.engine_ice_wear is None && self.engine_mguk_wear is None && self.engine_tc_wear is None && self.drs_fault is None && self.ers_fault is None && self.engine_blown is None && self.engine_seized is None),
    {
        self.front_left_wing.is_none()
            && self.front_right_wing.is_none()
            && self.rear_wing.is_none()
            && self.floor.is_none()
            && self.diffuser.is_none()
            && self.sidepod.is_none()
            && self.gearbox.is_none()
            && self.engine.is_none()
            && self.engine_mguh_wear.is_none()
            && self.engine_es_wear.is_none()
            && self.engine_ce_wear.is_none()
            && self.engine_ice_wear.is_none()
            && self.engine_mguk_wear.is_none()
            && self.engine_tc_wear.is_none()
            && self.drs_fault.is_none()
            && self.ers_fault.is_none()
            && self.engine_blown.is_none()
            && self.engine_seized.is_none()
    }
}

impl AeroState {
    /// Whether no field is known.
    pub fn is_empty(&self) -> (b: bool)
        ensures
            b == (self.mode is None && self.available is None && self.activation_distance_m is None && self.overtake_available is None && self.overtake_active is None && self.overtake_activation_distance_m is None && self.regulations_2026 is None && self.driving_wrong_way is None),
    {
        self.mode.is_none()
            && self.available.is_none()
            && self.activation_distance_m.is_none()
            && self.overtake_available.is_none()
            && self.overtake_active.is_none()
            && self.overtake_activation_distance_m.is_none()
            && self.regulations_2026.is_none()
            && self.driving_wrong_way.is_none()
    }
}

impl NavigationState {
    /// Whether no field is known.
    pub fn is_empty(&self) -> (b: bool)
        ensures
            b == (self.distance_m is None && self.time_s is None && self.speed_limit_mps is None),
    {
        self.distance_m.is_none()
            && self.time_s.is_none()
            && self.speed_limit_mps.is_none()
    }
}

impl LightsState {
    /// Whether no field is known.
    pub fn is_empty(&self) -> (b: bool)
        ensures
            b == (self.parking is None && self.low_beam is None && self.high_beam is None && self.beacon is None && self.brake is None && self.reverse is None && self.left_indicator is None && self.right_indicator is None && self.hazard is None),
    {
        self.parking.is_none()
            && self.low_beam.is_none()
            && self.high_beam.is_none()
            && self.beacon.is_none()
            && self.brake.is_none()
            && self.reverse.is_none()
            && self.left_indicator.is_none()
            && self.right_indicator.is_none()
            && self.hazard.is_none()
    }
}

impl JobState {
    /// Whether no field is known.
    pub fn is_empty(&self) -> (b: bool)
        ensures
            b == (self.active is None && self.cargo is None && self.cargo_mass_kg is None && self.source_city is None && self.destination_city is None && self.income is None && self.delivery_time is None && self.planned_distance_km is None && self.cargo_loaded is None && self.special is None),
    {
        self.active.is_none()
            && self.cargo.is_none()
            && self.cargo_mass_kg.is_none()
            && self.source_city.is_none()
            && self.destination_city.is_none()
            && self.income.is_none()
            && self.delivery_time.is_none()
            && self.planned_distance_km.is_none()
            && self.cargo_loaded.is_none()
            && self.special.is_none()
    }
}

impl TelemetrySnapshot {
    /// Whether every group of the snapshot holds nothing, with the given metadata.
    pub open spec fn is_empty_with(&self, meta: Meta) -> bool {
        &&& self.meta == meta
        &&& self.vehicle == VehicleState::empty()
        &&& self.lap == LapState::empty()
        &&& self.session == SessionState::empty()
        &&& self.tyres == TyreState::empty()
        &&& self.conditions == ConditionsState::empty()
        &&& self.damage == DamageState::empty()
        &&& self.aero == AeroState::empty()
        &&& self.navigation == NavigationState::empty()
        &&& self.lights == LightsState::empty()
        &&& self.job == JobState::empty()
        &&& self.extensions@.len() == 0
    }
}

impl Default for TelemetrySnapshot {
    fn default() -> (r: TelemetrySnapshot)
        ensures
            r.is_empty_with(Meta::empty()),
    {
        TelemetrySnapshot {
            meta: Meta::default(),
            vehicle: VehicleState::default(),
            lap: LapState::default(),
            session: SessionState::default(),
            tyres: TyreState::default(),
            conditions: ConditionsState::default(),
            damage: DamageState::default(),
            aero: AeroState::default(),
            navigation: NavigationState::default(),
            lights: LightsState::default(),
            job: JobState::default(),
            extensions: Vec::new(),
        }
    }
}

impl TelemetryUpdate {
    /// Whether the update carries nothing but its receive time.
    pub open spec fn is_empty_at(&self, received_at: MonotonicTimestamp) -> bool {
        &&& self.received_at == received_at
        &&& self.session_id is None
        &&& self.frame_id is None
        &&& self.vehicle == VehicleUpdate::empty()
        &&& self.lap == LapState::empty()
        &&& self.session == SessionUpdate::empty()
        &&& self.tyres == TyreState::empty()
        &&& self.conditions == ConditionsState::empty()
        &&& self.damage == DamageState::empty()
        &&& self.aero == AeroState::empty()
        &&& self.navigation == NavigationState::empty()
        &&& self.lights == LightsState::empty()
        &&& self.job == JobState::empty()
        &&& self.extensions@.len() == 0
    }
}

impl Default for TelemetryUpdate {
    fn default() -> (r: TelemetryUpdate)
        ensures
            r.is_empty_at(MonotonicTimestamp::of_micros(0)),
    {
        TelemetryUpdate {
            received_at: MonotonicTimestamp::from_micros(0),
            session_id: None,
            frame_id: None,
            vehicle: VehicleUpdate::default(),
            lap: LapState::default(),
            session: SessionUpdate::default(),
            tyres: TyreState::default(),
            conditions: ConditionsState::default(),
            damage: DamageState::default(),
            aero: AeroState::default(),
            navigation: NavigationState::default(),
            lights: LightsState::default(),
            job: JobState::default(),
            extensions: Vec::new(),
        }
    }
}

} // verus!
