use opencarpanel::scs::{
    map_packet, map_truck_gear, AtsAdapter, BridgeJob, BridgeLights, BridgePacket, Ets2Adapter, ScsGame,
};
use opencarpanel::telemetry::model::{DrsState, Gear, MonotonicTimestamp, Real, TelemetryField};
use opencarpanel::telemetry::state::TelemetryUpdate;

#[test]
fn ets2_and_ats_have_stable_ids_and_truck_capabilities() {
    let ets2 = Ets2Adapter::new().expect("valid metadata");
    let ats = AtsAdapter::new().expect("valid metadata");
    assert_eq!(ets2.descriptor().id.as_str(), "ets2");
    assert_eq!(ats.descriptor().id.as_str(), "ats");
    assert_eq!(ets2.descriptor().display_name, "Euro Truck Simulator 2");
    assert_eq!(ats.descriptor().protocol_version, "scs-bridge/v1+v2 (SDK 1.14)");
    assert_eq!(ets2.descriptor().capabilities.len(), 11);
    assert!(ets2.descriptor().capabilities.contains(TelemetryField::Job));
    assert!(!ets2.descriptor().capabilities.contains(TelemetryField::Tyres));
}

#[test]
fn concrete_adapters_reject_the_other_truck_game() {
    let ets2 = Ets2Adapter::new().expect("valid metadata");
    let ats = AtsAdapter::new().expect("valid metadata");
    assert!(ets2.accepts(ScsGame::Ets2));
    assert!(!ets2.accepts(ScsGame::Ats));
    assert!(ats.accepts(ScsGame::Ats));
    assert!(!ats.accepts(ScsGame::Ets2));
}

#[test]
fn truck_gears_preserve_reverse_neutral_forward_and_unknown() {
    for (wire, expected) in [
        (-2, Gear::Reverse),
        (0, Gear::Neutral),
        (18, Gear::forward(18).unwrap_or(Gear::Unknown)),
        (256, Gear::Unknown),
    ] {
        assert_eq!(map_truck_gear(wire), expected);
    }
    assert_eq!(map_truck_gear(i32::MIN), Gear::Reverse);
    assert_eq!(map_truck_gear(255), Gear::forward(255).unwrap_or(Gear::Unknown));
}

fn bits(value: f32) -> Real {
    Real { bits: value.to_bits() }
}

fn float(value: Real) -> f32 {
    f32::from_bits(value.bits)
}

fn rounded(value: Real) -> u16 {
    float(value).round() as u16
}

fn packet_v1(game: ScsGame, gear: i32) -> BridgePacket {
    BridgePacket {
        protocol_version: 1,
        game,
        session_nonce: 0xa1a2_a3a4_a5a6_a7a8,
        frame_sequence: 77,
        speed_mps: bits(-20.0),
        rpm: bits(1_350.6),
        rpm_max: bits(2_500.0),
        displayed_gear: gear,
        throttle: bits(0.8),
        brake: bits(0.1),
        navigation_distance_m: None,
        navigation_time_s: None,
        navigation_speed_limit_mps: None,
        fuel_liters: None,
        fuel_capacity_liters: None,
        fuel_range_km: None,
        fuel_warning: None,
        lights: None,
        job: None,
    }
}

fn packet_v2(game: ScsGame, gear: i32) -> BridgePacket {
    BridgePacket {
        protocol_version: 2,
        navigation_distance_m: Some(bits(12_500.0)),
        navigation_time_s: Some(bits(600.0)),
        navigation_speed_limit_mps: Some(bits(25.0)),
        fuel_liters: Some(bits(275.0)),
        fuel_capacity_liters: Some(bits(400.0)),
        fuel_range_km: Some(bits(900.0)),
        fuel_warning: Some(true),
        lights: Some(BridgeLights {
            parking: true,
            low_beam: true,
            high_beam: false,
            beacon: false,
            brake: true,
            reverse: false,
            left_indicator: true,
            right_indicator: true,
            hazard: true,
        }),
        job: Some(BridgeJob {
            active: true,
            cargo: Some("Medical Vaccines".to_owned()),
            cargo_mass_kg: bits(22_000.0),
            source_city: Some("Hamburg".to_owned()),
            destination_city: Some("Oslo".to_owned()),
            income: 85_000,
            delivery_time: 11_000,
            planned_distance_km: 650,
            cargo_loaded: true,
            special: true,
        }),
        ..packet_v1(game, gear)
    }
}

fn mapped(packet: BridgePacket, at: u64) -> TelemetryUpdate {
    let rpm = rounded(packet.rpm);
    let rpm_max = rounded(packet.rpm_max);
    map_packet(packet, rpm, rpm_max, MonotonicTimestamp::from_micros(at)).expect("maps")
}

#[test]
fn ets2_and_ats_map_the_common_truck_dashboard_fields() {
    for game in [ScsGame::Ets2, ScsGame::Ats] {
        let update = mapped(packet_v1(game, 12), 900);
        assert_eq!(update.received_at, MonotonicTimestamp::from_micros(900));
        assert_eq!(update.session_id.as_deref(), Some("a1a2a3a4a5a6a7a8"));
        assert_eq!(update.frame_id, Some(77));
        assert_eq!(update.vehicle.speed_mps.map(float), Some(20.0));
        assert_eq!(update.vehicle.rpm, Some(1_351));
        assert_eq!(update.vehicle.rpm_max, Some(2_500));
        assert_eq!(update.vehicle.gear, Gear::forward(12));
        assert_eq!(update.vehicle.throttle.map(|n| float(n.get())), Some(0.8));
        assert_eq!(update.vehicle.brake.map(|n| float(n.get())), Some(0.1));
        assert_eq!(update.vehicle.drs, Some(DrsState::Unavailable));
        assert_eq!(update.lights.parking, None);
        assert_eq!(update.job.active, None);
        assert!(update.extensions.is_empty());
    }
}

#[test]
fn v2_maps_navigation_fuel_lights_and_delivery_job() {
    let update = mapped(packet_v2(ScsGame::Ets2, 7), 901);

    assert_eq!(update.vehicle.fuel_liters.map(float), Some(275.0));
    assert_eq!(update.vehicle.fuel_capacity_liters.map(float), Some(400.0));
    assert_eq!(update.vehicle.fuel_range_km.map(float), Some(900.0));
    assert_eq!(update.vehicle.fuel_warning, Some(true));
    assert_eq!(update.navigation.distance_m.map(float), Some(12_500.0));
    assert_eq!(update.navigation.time_s.map(float), Some(600.0));
    assert_eq!(update.navigation.speed_limit_mps.map(float), Some(25.0));
    assert_eq!(update.lights.parking, Some(true));
    assert_eq!(update.lights.low_beam, Some(true));
    assert_eq!(update.lights.high_beam, Some(false));
    assert_eq!(update.lights.brake, Some(true));
    assert_eq!(update.lights.left_indicator, Some(true));
    assert_eq!(update.lights.right_indicator, Some(true));
    assert_eq!(update.lights.hazard, Some(true));
    assert_eq!(update.job.active, Some(true));
    assert_eq!(update.job.cargo.as_deref(), Some("Medical Vaccines"));
    assert_eq!(update.job.cargo_mass_kg.map(float), Some(22_000.0));
    assert_eq!(update.job.source_city.as_deref(), Some("Hamburg"));
    assert_eq!(update.job.destination_city.as_deref(), Some("Oslo"));
    assert_eq!(update.job.income, Some(85_000));
    assert_eq!(update.job.delivery_time, Some(11_000));
    assert_eq!(update.job.planned_distance_km, Some(650));
    assert_eq!(update.job.cargo_loaded, Some(true));
    assert_eq!(update.job.special, Some(true));
}

#[test]
fn v2_hides_non_positive_scs_speed_limit_special_states() {
    for speed_limit in [0.0_f32, -0.0, -1.0, f32::NAN] {
        let packet = BridgePacket {
            navigation_speed_limit_mps: Some(bits(speed_limit)),
            ..packet_v2(ScsGame::Ets2, 7)
        };
        assert_eq!(mapped(packet, 1).navigation.speed_limit_mps, None);
    }
}

#[test]
fn inactive_job_keeps_names_but_hides_figures() {
    let mut packet = packet_v2(ScsGame::Ats, 1);
    if let Some(job) = packet.job.as_mut() {
        job.active = false;
    }
    let update = mapped(packet, 1);
    assert_eq!(update.job.active, Some(false));
    assert_eq!(update.job.cargo.as_deref(), Some("Medical Vaccines"));
    assert_eq!(update.job.income, None);
    assert_eq!(update.job.cargo_mass_kg, None);
    assert_eq!(update.job.cargo_loaded, None);
}

#[test]
fn zero_rpm_limit_is_unknown_and_pedals_are_checked_in_order() {
    let packet = BridgePacket { rpm_max: bits(0.0), ..packet_v1(ScsGame::Ets2, 0) };
    let update = mapped(packet, 1);
    assert_eq!(update.vehicle.rpm_max, None);
    assert_eq!(update.vehicle.gear, Some(Gear::Neutral));

    let both_bad = BridgePacket { throttle: bits(1.5), brake: bits(-0.5), ..packet_v1(ScsGame::Ets2, 1) };
    let error = map_packet(both_bad, 0, 0, MonotonicTimestamp::from_micros(1)).unwrap_err();
    assert_eq!(float(error.value()), 1.5);
    let brake_bad = BridgePacket { brake: bits(f32::NAN), ..packet_v1(ScsGame::Ets2, 1) };
    let error = map_packet(brake_bad, 0, 0, MonotonicTimestamp::from_micros(1)).unwrap_err();
    assert!(float(error.value()).is_nan());
}
