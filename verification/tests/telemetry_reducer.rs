use opencarpanel::telemetry::model::{Gear, MonotonicTimestamp, Normalized, Real};
use opencarpanel::telemetry::reducer::TelemetryReducer;
use opencarpanel::telemetry::state::{JobState, Namespaced, TelemetryUpdate, TyreCornerState};

fn bits_of(value: f32) -> Real {
    Real { bits: value.to_bits() }
}

fn value(r: Real) -> f32 {
    f32::from_bits(r.bits)
}

fn vehicle_update(session: &str, frame: u32) -> TelemetryUpdate {
    TelemetryUpdate {
        received_at: MonotonicTimestamp::from_micros(u64::from(frame) * 1_000),
        session_id: Some(session.into()),
        frame_id: Some(frame),
        ..TelemetryUpdate::default()
    }
}

#[test]
fn partial_updates_merge_into_one_snapshot() {
    let mut reducer = TelemetryReducer::default();
    let mut speed = vehicle_update("session-a", 10);
    speed.vehicle.speed_mps = Some(bits_of(50.0));
    reducer.apply(speed);

    let mut rpm = vehicle_update("session-a", 11);
    rpm.vehicle.rpm = Some(11_000);
    rpm.vehicle.rev_lights = Normalized::new(bits_of(0.92)).ok();
    rpm.vehicle.gear = Gear::forward(7);
    reducer.apply(rpm);

    let snapshot = reducer.snapshot();
    assert_eq!(snapshot.vehicle.speed_mps.map(value), Some(50.0));
    assert_eq!(snapshot.vehicle.rpm, Some(11_000));
    assert_eq!(
        snapshot.vehicle.rev_lights.map(|n| value(n.get())),
        Some(0.92)
    );
    assert_eq!(
        snapshot.vehicle.gear,
        Gear::forward(7).unwrap_or(Gear::Unknown)
    );
    assert_eq!(snapshot.meta.sequence, 2);
}

#[test]
fn new_session_clears_stale_game_state() {
    let mut reducer = TelemetryReducer::default();
    let mut old = vehicle_update("session-a", 30);
    old.vehicle.speed_mps = Some(bits_of(60.0));
    reducer.apply(old);

    let mut new = vehicle_update("session-b", 1);
    new.vehicle.rpm = Some(9_000);
    reducer.apply(new);

    let snapshot = reducer.snapshot();
    assert_eq!(snapshot.meta.session_id.as_deref(), Some("session-b"));
    assert_eq!(snapshot.vehicle.speed_mps, None);
    assert_eq!(snapshot.vehicle.rpm, Some(9_000));
}

#[test]
fn older_frame_cannot_overwrite_a_newer_field() {
    let mut reducer = TelemetryReducer::default();
    let mut newer = vehicle_update("session-a", 10);
    newer.vehicle.speed_mps = Some(bits_of(50.0));
    reducer.apply(newer);

    let mut older = vehicle_update("session-a", 9);
    older.received_at = MonotonicTimestamp::from_micros(11_000);
    older.vehicle.speed_mps = Some(bits_of(40.0));
    older.vehicle.rpm = Some(11_000);
    reducer.apply(older);

    let snapshot = reducer.snapshot();
    assert_eq!(snapshot.vehicle.speed_mps.map(value), Some(50.0));
    assert_eq!(snapshot.vehicle.rpm, Some(11_000));
    assert_eq!(
        snapshot.meta.captured_at,
        Some(MonotonicTimestamp::from_micros(11_000))
    );
}

#[test]
fn tyre_packets_merge_independent_temperature_and_damage_fields() {
    let mut reducer = TelemetryReducer::default();
    let mut temperatures = vehicle_update("session-a", 20);
    temperatures.tyres.front_left = Some(TyreCornerState {
        surface_temperature_c: Some(bits_of(92.0)),
        inner_temperature_c: Some(bits_of(88.0)),
        pressure_pa: Some(bits_of(145_000.0)),
        ..TyreCornerState::default()
    });
    reducer.apply(temperatures);

    let mut damage = vehicle_update("session-a", 21);
    damage.tyres.front_left = Some(TyreCornerState {
        wear: Normalized::new(bits_of(0.24)).ok(),
        damage: Normalized::new(bits_of(0.08)).ok(),
        brake_damage: Normalized::new(bits_of(0.03)).ok(),
        ..TyreCornerState::default()
    });
    reducer.apply(damage);

    let tyre = reducer.snapshot().tyres.front_left.as_ref();
    assert_eq!(
        tyre.and_then(|corner| corner.surface_temperature_c).map(value),
        Some(92.0)
    );
    assert_eq!(
        tyre.and_then(|corner| corner.inner_temperature_c).map(value),
        Some(88.0)
    );
    assert_eq!(
        tyre.and_then(|corner| corner.pressure_pa).map(value),
        Some(145_000.0)
    );
    assert_eq!(
        tyre.and_then(|corner| corner.wear).map(|n| value(n.get())),
        Some(0.24)
    );
    assert_eq!(
        tyre.and_then(|corner| corner.damage).map(|n| value(n.get())),
        Some(0.08)
    );
    assert_eq!(
        tyre.and_then(|corner| corner.brake_damage)
            .map(|n| value(n.get())),
        Some(0.03)
    );
}

#[test]
fn completed_job_clears_stale_delivery_details() {
    let mut reducer = TelemetryReducer::default();
    let mut active = vehicle_update("session-a", 30);
    active.job = JobState {
        active: Some(true),
        cargo: Some("Medical Vaccines".into()),
        cargo_mass_kg: Some(bits_of(22_000.0)),
        source_city: Some("Hamburg".into()),
        destination_city: Some("Oslo".into()),
        income: Some(85_000),
        delivery_time: Some(11_000),
        planned_distance_km: Some(650),
        cargo_loaded: Some(true),
        special: Some(true),
    };
    reducer.apply(active);

    let mut completed = vehicle_update("session-a", 31);
    completed.job.active = Some(false);
    reducer.apply(completed);

    assert_eq!(
        reducer.snapshot().job,
        JobState {
            active: Some(false),
            ..JobState::default()
        }
    );

    let mut late = vehicle_update("session-a", 30);
    late.received_at = MonotonicTimestamp::from_micros(32_000);
    late.job = JobState {
        active: Some(true),
        cargo: Some("Stale cargo".into()),
        destination_city: Some("Stale city".into()),
        ..JobState::default()
    };
    reducer.apply(late);
    assert_eq!(
        reducer.snapshot().job,
        JobState {
            active: Some(false),
            ..JobState::default()
        }
    );
}

#[test]
fn stale_update_reports_no_change_and_keeps_the_sequence() {
    let mut reducer = TelemetryReducer::with_game_id("f1-25".into());
    let mut newer = vehicle_update("session-a", 10);
    newer.vehicle.rpm = Some(10_000);
    assert!(reducer.apply(newer));

    let mut older = vehicle_update("session-a", 9);
    older.vehicle.rpm = Some(9_000);
    assert!(!reducer.apply(older));

    let snapshot = reducer.snapshot();
    assert_eq!(snapshot.meta.game_id.as_deref(), Some("f1-25"));
    assert_eq!(snapshot.vehicle.rpm, Some(10_000));
    assert_eq!(snapshot.meta.sequence, 1);
}

#[test]
fn an_empty_update_changes_nothing() {
    let mut reducer = TelemetryReducer::default();
    let mut first = vehicle_update("session-a", 5);
    first.vehicle.rpm = Some(7_000);
    reducer.apply(first);
    let before = reducer.snapshot().clone();

    assert!(!reducer.apply(TelemetryUpdate::default()));
    assert_eq!(reducer.snapshot(), &before);
}

#[test]
fn wrapped_frame_counter_is_still_newer() {
    let mut reducer = TelemetryReducer::default();
    let mut before_wrap = vehicle_update("session-a", u32::MAX);
    before_wrap.vehicle.rpm = Some(8_000);
    reducer.apply(before_wrap);

    let mut after_wrap = vehicle_update("session-a", 2);
    after_wrap.vehicle.rpm = Some(8_500);
    assert!(reducer.apply(after_wrap));
    assert_eq!(reducer.snapshot().vehicle.rpm, Some(8_500));
}

#[test]
fn extension_values_follow_their_namespace_frames() {
    let mut reducer = TelemetryReducer::default();
    let mut first = vehicle_update("session-a", 10);
    first.extensions.push(Namespaced {
        namespace: "plugin".into(),
        value: "1".to_owned(),
    });
    assert!(reducer.apply(first));

    let mut stale = vehicle_update("session-a", 9);
    stale.extensions.push(Namespaced {
        namespace: "plugin".into(),
        value: "2".to_owned(),
    });
    assert!(!reducer.apply(stale));

    let extensions = &reducer.snapshot().extensions;
    assert_eq!(extensions.len(), 1);
    assert_eq!(extensions[0].namespace, "plugin");
    assert_eq!(extensions[0].value, "1");
}

#[test]
fn reapplying_an_equal_extension_value_reports_no_change() {
    let mut reducer = TelemetryReducer::default();
    let offer = |frame: u32, text: &str| {
        let mut update = vehicle_update("session-a", frame);
        update.extensions.push(Namespaced { namespace: "plugin".into(), value: text.to_owned() });
        update
    };
    assert!(reducer.apply(offer(10, "{\"gear\":3}")));
    assert!(!reducer.apply(offer(10, "{\"gear\":3}")));
    assert!(!reducer.apply(offer(11, "{\"gear\":3}")));
    assert_eq!(reducer.snapshot().meta.sequence, 1);
    assert!(reducer.apply(offer(12, "{\"gear\":4}")));
    assert_eq!(reducer.snapshot().meta.sequence, 2);
    assert_eq!(reducer.snapshot().extensions[0].value, "{\"gear\":4}");
}

#[test]
fn unframed_values_always_apply() {
    let mut reducer = TelemetryReducer::default();
    let mut framed = vehicle_update("session-a", 10);
    framed.vehicle.rpm = Some(6_000);
    reducer.apply(framed);

    let mut unframed = vehicle_update("session-a", 0);
    unframed.frame_id = None;
    unframed.vehicle.rpm = Some(6_500);
    assert!(reducer.apply(unframed));
    assert_eq!(reducer.snapshot().vehicle.rpm, Some(6_500));
}

fn repeated_update(frame: u32) -> TelemetryUpdate {
    let mut update = vehicle_update("session-a", frame);
    update.vehicle.speed_mps = Some(bits_of(42.0));
    update.vehicle.gear = Gear::forward(3);
    update.session.track_id = Some("4".to_owned());
    update.job.cargo = Some("Steel".to_owned());
    update
}

#[test]
fn reapplying_equal_values_reports_no_change() {
    let mut reducer = TelemetryReducer::default();
    assert!(reducer.apply(repeated_update(10)));
    assert_eq!(reducer.snapshot().meta.sequence, 1);
    let captured = reducer.snapshot().meta.captured_at;

    assert!(!reducer.apply(repeated_update(10)));
    assert!(!reducer.apply(repeated_update(11)));
    assert_eq!(reducer.snapshot().meta.sequence, 1);
    assert_eq!(reducer.snapshot().meta.captured_at, captured);
    assert_eq!(reducer.snapshot().session.track_id.as_deref(), Some("4"));

    let mut faster = repeated_update(12);
    faster.vehicle.speed_mps = Some(bits_of(43.0));
    assert!(reducer.apply(faster));
    assert_eq!(reducer.snapshot().meta.sequence, 2);
    assert_eq!(reducer.snapshot().vehicle.speed_mps.map(value), Some(43.0));
}

#[test]
fn frameless_values_are_written_over_framed_ones() {
    let mut reducer = TelemetryReducer::default();
    let mut framed = vehicle_update("session-a", 50);
    framed.vehicle.speed_mps = Some(bits_of(50.0));
    framed.tyres.front_left = Some(TyreCornerState { inner_temperature_c: Some(bits_of(90.0)), ..TyreCornerState::default() });
    reducer.apply(framed);

    let mut frameless = vehicle_update("session-a", 0);
    frameless.frame_id = None;
    frameless.vehicle.speed_mps = Some(bits_of(20.0));
    frameless.tyres.front_left = Some(TyreCornerState { pressure_pa: Some(bits_of(1.5)), ..TyreCornerState::default() });
    frameless.job = JobState { active: Some(false), cargo: Some("logs".to_owned()), ..JobState::default() };
    assert!(reducer.apply(frameless));

    let snapshot = reducer.snapshot();
    assert_eq!(snapshot.vehicle.speed_mps.map(value), Some(20.0));
    let corner = snapshot.tyres.front_left.expect("corner");
    assert_eq!(corner.pressure_pa.map(value), Some(1.5));
    assert_eq!(corner.inner_temperature_c.map(value), Some(90.0));
    assert_eq!(snapshot.job.active, Some(false));
    assert_eq!(snapshot.job.cargo, None);
}
