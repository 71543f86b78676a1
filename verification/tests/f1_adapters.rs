use opencarpanel::adapter::AdapterError;
use opencarpanel::f1::adapter::{F1Packet, F1_24Adapter, F1_25Adapter};
use opencarpanel::f1::error::{adapter_error, render_decimal_list, DecodeError};
use opencarpanel::telemetry::model::{Real, TelemetryField};

fn header(packet_format: u16, game_year: u8, packet_id: u8) -> Vec<u8> {
    let mut bytes = Vec::new();
    bytes.extend_from_slice(&packet_format.to_le_bytes());
    bytes.push(game_year);
    bytes.push(1);
    bytes.push(7);
    bytes.push(1);
    bytes.push(packet_id);
    bytes.extend_from_slice(&0x0102_0304_0506_0708_u64.to_le_bytes());
    bytes.extend_from_slice(&12.5_f32.to_le_bytes());
    bytes.extend_from_slice(&10_u32.to_le_bytes());
    bytes.extend_from_slice(&10_u32.to_le_bytes());
    bytes.push(0);
    bytes.push(255);
    bytes
}

#[test]
fn concrete_f1_adapters_have_stable_ids_and_capabilities() {
    let f1_24 = F1_24Adapter::new().expect("valid metadata");
    let f1_25 = F1_25Adapter::new().expect("valid metadata");
    assert_eq!(f1_24.descriptor().id.as_str(), "f1-24");
    assert_eq!(f1_25.descriptor().id.as_str(), "f1-25");
    assert_eq!(f1_24.descriptor().display_name, "EA Sports F1 24");
    assert!(!f1_24.descriptor().capabilities.contains(TelemetryField::Aero));
    assert!(f1_25.descriptor().capabilities.contains(TelemetryField::Aero));
    assert!(f1_24.descriptor().capabilities.contains(TelemetryField::VehicleSpeed));
}

#[test]
fn concrete_f1_adapters_decode_only_their_formats() {
    let mut f1_24 = F1_24Adapter::new().expect("valid metadata");
    let mut f1_25 = F1_25Adapter::new().expect("valid metadata");
    let motion = header(2024, 24, 0);
    assert!(matches!(f1_24.decode_packet(&motion), Ok(F1Packet::Ignored { .. })));
    assert!(matches!(
        f1_25.decode_packet(&motion),
        Err(DecodeError::UnsupportedPacketFormats { actual: 2024, .. })
    ));
    assert!(matches!(
        f1_24.decode_packet(&motion[..10]),
        Err(DecodeError::UnexpectedEnd { .. })
    ));
}

#[test]
fn lap_completion_is_reported_through_the_concrete_adapters() {
    let mut adapter = F1_24Adapter::new().expect("valid metadata");
    assert_eq!(adapter.complete_lap(10, Some(3)), None);
    assert_eq!(adapter.complete_lap(11, Some(4)), Some(3));
    assert_eq!(adapter.complete_lap(9, Some(5)), None);
}

#[test]
fn decoding_failures_map_to_adapter_failures() {
    assert_eq!(
        adapter_error(&DecodeError::UnsupportedPacketFormat { expected: 2024, actual: 2025 }, ""),
        AdapterError::UnsupportedProtocol { expected: "2024".to_owned(), actual: "2025".to_owned() }
    );
    assert_eq!(
        adapter_error(&DecodeError::UnsupportedPacketFormats { expected: vec![2025, 2026], actual: 2024 }, ""),
        AdapterError::UnsupportedProtocol { expected: "2025, 2026".to_owned(), actual: "2024".to_owned() }
    );
    assert_eq!(
        adapter_error(&DecodeError::UnsupportedPacketVersion { packet_id: 6, expected: 1, actual: 2 }, ""),
        AdapterError::UnsupportedProtocol {
            expected: "packet 6 version 1".to_owned(),
            actual: "packet 6 version 2".to_owned(),
        }
    );
    assert_eq!(
        adapter_error(&DecodeError::InvalidPlayerIndex { index: 30, car_count: 22 }, ""),
        AdapterError::MalformedPacket { reason: "player car index 30 is outside the 22-entry car array".to_owned() }
    );
    assert_eq!(
        adapter_error(
            &DecodeError::InvalidNormalizedValue { field: "throttle", value: Real { bits: 1.5_f32.to_bits() } },
            "1.5",
        ),
        AdapterError::MalformedPacket {
            reason: "invalid throttle value 1.5; expected a finite value in 0.0..=1.0".to_owned(),
        }
    );
    assert_eq!(
        DecodeError::UnexpectedEnd { offset: 29, needed: 4, remaining: 1 }.to_string(""),
        "datagram ended at offset 29: needed 4 bytes, 1 remain"
    );
    assert_eq!(render_decimal_list(&vec![]), "");
    assert_eq!(render_decimal_list(&vec![7]), "7");
}
