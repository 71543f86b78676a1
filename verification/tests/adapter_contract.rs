use opencarpanel::adapter::{
    AdapterDescriptor, AdapterError, AdapterId, AdapterOutput, CapabilitySet, GameAdapter,
};
use opencarpanel::telemetry::model::{MonotonicTimestamp, Real, TelemetryField};
use opencarpanel::telemetry::state::TelemetryUpdate;

#[derive(Debug)]
struct FakeAdapter {
    descriptor: AdapterDescriptor,
}

impl FakeAdapter {
    fn new() -> Result<Self, AdapterError> {
        let id = AdapterId::new("test-adapter".into()).map_err(AdapterError::from_id_error)?;
        Ok(Self {
            descriptor: AdapterDescriptor::new(
                id,
                "Test Adapter".into(),
                "1".into(),
                CapabilitySet::from_fields(&[TelemetryField::VehicleSpeed]),
            ),
        })
    }
}

impl GameAdapter for FakeAdapter {
    fn descriptor(&self) -> &AdapterDescriptor {
        &self.descriptor
    }

    fn decode(
        &mut self,
        datagram: &[u8],
        received_at: MonotonicTimestamp,
        output: &mut AdapterOutput,
    ) -> Result<(), AdapterError> {
        if datagram != [42] {
            return Err(AdapterError::malformed_packet("expected the fake packet"));
        }

        let mut update = TelemetryUpdate {
            received_at,
            ..TelemetryUpdate::default()
        };
        update.vehicle.speed_mps = Some(Real { bits: 42.0f32.to_bits() });
        output.updates.push(update);
        Ok(())
    }
}

#[test]
fn a_game_adapter_decodes_into_reusable_output() {
    let mut adapter = FakeAdapter::new().expect("valid fake adapter");
    let mut output = AdapterOutput::with_capacity(4, 2);

    adapter
        .decode(&[42], MonotonicTimestamp::from_micros(1_234), &mut output)
        .expect("the fake packet decodes");

    assert_eq!(adapter.descriptor().id.as_str(), "test-adapter");
    assert_eq!(output.updates.len(), 1);
    assert!(output.events.is_empty());
    assert_eq!(output.updates[0].received_at.as_micros(), 1_234);

    let update_capacity = output.updates.capacity();
    let event_capacity = output.events.capacity();
    output.clear();

    assert!(output.updates.is_empty());
    assert!(output.events.is_empty());
    assert_eq!(output.updates.capacity(), update_capacity);
    assert_eq!(output.events.capacity(), event_capacity);
}

#[test]
fn adapter_ids_are_stable_lowercase_slugs() {
    assert!(AdapterId::new("f1-24".into()).is_ok());

    for invalid in ["", "F1-24", "-f1", "f1-", "f1--24", "f1_24"] {
        assert!(AdapterId::new(invalid.into()).is_err(), "accepted {invalid:?}");
    }
}

#[test]
fn adapter_ids_are_bounded_to_sixty_four_bytes() {
    let longest = "a".repeat(64);
    assert!(AdapterId::new(longest).is_ok());
    assert!(AdapterId::new("a".repeat(65)).is_err());
    assert!(AdapterId::new("é".into()).is_err());
}

#[test]
fn invalid_ids_become_configuration_errors() {
    let error = AdapterId::new("Bad Id".into()).unwrap_err();
    assert_eq!(error.value(), "Bad Id");
    assert_eq!(error.to_string(), "invalid adapter id: \"Bad Id\"");
    assert_eq!(
        AdapterError::from_id_error(error).to_string(),
        "invalid adapter configuration: invalid adapter id: \"Bad Id\""
    );
}

#[test]
fn capability_sets_are_ordered_and_deduplicated() {
    let capabilities = CapabilitySet::from_fields(&[
        TelemetryField::VehicleRpm,
        TelemetryField::VehicleSpeed,
        TelemetryField::VehicleRpm,
    ]);

    assert_eq!(capabilities.len(), 2);
    assert!(capabilities.contains(TelemetryField::VehicleSpeed));
    assert_eq!(
        capabilities.iter(),
        vec![TelemetryField::VehicleSpeed, TelemetryField::VehicleRpm]
    );
}

#[test]
fn inserting_reports_whether_a_field_was_new() {
    let mut capabilities = CapabilitySet::new();
    assert!(capabilities.is_empty());
    assert!(capabilities.insert(TelemetryField::Job));
    assert!(capabilities.insert(TelemetryField::VehicleGear));
    assert!(!capabilities.insert(TelemetryField::Job));
    assert!(!capabilities.contains(TelemetryField::Tyres));
    assert_eq!(
        capabilities.iter(),
        vec![TelemetryField::VehicleGear, TelemetryField::Job]
    );
}

#[test]
fn malformed_packets_have_actionable_errors() {
    let error = AdapterError::malformed_packet("packet is shorter than its header");

    assert_eq!(
        error.to_string(),
        "malformed packet: packet is shorter than its header"
    );
}

#[test]
fn protocol_and_configuration_errors_name_their_cause() {
    assert_eq!(
        AdapterError::unsupported_protocol("2024", "2023").to_string(),
        "unsupported protocol version 2023; expected 2024"
    );
    assert_eq!(
        AdapterError::invalid_configuration("port must be set").to_string(),
        "invalid adapter configuration: port must be set"
    );
}
