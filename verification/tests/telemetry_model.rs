use opencarpanel::telemetry::model::{
    Gear, MonotonicTimestamp, Normalized, Real, TelemetryField, TELEMETRY_SCHEMA_VERSION,
};
use opencarpanel::telemetry::state::{TelemetrySnapshot, TelemetryUpdate};

fn bits_of(value: f32) -> Real {
    Real { bits: value.to_bits() }
}

#[test]
fn absent_game_data_stays_absent() {
    let snapshot = TelemetrySnapshot::default();

    assert_eq!(snapshot.meta.schema_version, TELEMETRY_SCHEMA_VERSION);
    assert_eq!(snapshot.vehicle.speed_mps, None);
    assert_eq!(snapshot.vehicle.gear, Gear::Unknown);
    assert!(snapshot.extensions.is_empty());
}

#[test]
fn normalized_inputs_enforce_the_closed_unit_interval() {
    for value in [0.0f32, 0.75, 1.0] {
        let normalized = Normalized::new(bits_of(value)).expect("in range");
        assert!((f32::from_bits(normalized.get().bits) - value).abs() <= f32::EPSILON);
    }

    for value in [-0.01f32, 1.01, f32::NAN, f32::INFINITY] {
        assert!(Normalized::new(bits_of(value)).is_err());
    }

    let parsed: f32 = "1.01".parse().expect("a number");
    assert!(Normalized::new(bits_of(parsed)).is_err());
}

#[test]
fn normalized_accepts_negative_zero_and_rejects_the_next_value_above_one() {
    assert!(Normalized::new(bits_of(-0.0)).is_ok());
    assert!(Normalized::new(Real { bits: 1.0f32.to_bits() + 1 }).is_err());
    assert!(Normalized::new(bits_of(f32::NEG_INFINITY)).is_err());
    let error = Normalized::new(bits_of(2.0)).unwrap_err();
    assert_eq!(error.value(), bits_of(2.0));
}

#[test]
fn public_field_paths_match_the_wire_model() {
    assert_eq!(TelemetryField::VehicleSpeed.as_path(), "vehicle.speedMps");
    assert_eq!(TelemetryField::VehicleRpm.as_path(), "vehicle.rpm");
    assert_eq!(TelemetryField::SessionRemainingTime.as_path(), "session.remainingTimeMs");
    assert_eq!(TelemetryField::Job.as_path(), "job");
}

#[test]
fn field_ranks_follow_declaration_order() {
    assert_eq!(TelemetryField::VehicleSpeed.rank(), 0);
    assert_eq!(TelemetryField::LapCurrent.rank(), 10);
    assert_eq!(TelemetryField::Job.rank(), 27);
}

#[test]
fn an_empty_update_contains_no_accidental_values() {
    let update = TelemetryUpdate::default();

    assert_eq!(update.vehicle.speed_mps, None);
    assert_eq!(update.vehicle.gear, None);
    assert!(update.extensions.is_empty());
}

#[test]
fn timestamps_order_by_their_microseconds() {
    let early = MonotonicTimestamp::from_micros(5);
    let late = MonotonicTimestamp::from_micros(9);
    assert!(early < late);
    assert!(early <= early);
    assert!(late > early);
    assert_eq!(early.max(late), late);
    assert_eq!(MonotonicTimestamp::default().as_micros(), 0);
}

#[test]
fn from_rank_inverts_rank_and_paths_name_their_field() {
    let mut paths = Vec::new();
    for rank in 0..28_u8 {
        let field = TelemetryField::from_rank(rank);
        assert_eq!(field.rank(), rank);
        paths.push(field.as_path());
    }
    let mut unique = paths.clone();
    unique.sort_unstable();
    unique.dedup();
    assert_eq!(unique.len(), paths.len());
}
