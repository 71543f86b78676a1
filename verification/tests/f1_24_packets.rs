use opencarpanel::adapter::AdapterOutput;
use opencarpanel::f1::adapter::{F1Packet, F1_24Adapter, F1_24_PACKET_FORMAT};
use opencarpanel::f1::error::DecodeError;
use opencarpanel::f1::header::{PacketHeader, PACKET_HEADER_LEN};
use opencarpanel::f1::mapping::{map_player_sample, TelemetryReals};
use opencarpanel::f1::packets::{Corners, CAR_TELEMETRY_DATA_LEN, CAR_TELEMETRY_PACKET_LEN};
use opencarpanel::telemetry::model::{DrsState, Gear, MonotonicTimestamp, Real};
use opencarpanel::telemetry::state::TelemetryUpdate;

const PLAYER_INDEX: u8 = 7;

fn valid_header() -> Vec<u8> {
    let mut bytes = Vec::with_capacity(PACKET_HEADER_LEN);
    bytes.extend_from_slice(&F1_24_PACKET_FORMAT.to_le_bytes());
    bytes.push(24);
    bytes.push(1);
    bytes.push(7);
    bytes.push(3);
    bytes.push(6);
    bytes.extend_from_slice(&0x0102_0304_0506_0708_u64.to_le_bytes());
    bytes.extend_from_slice(&12.5_f32.to_le_bytes());
    bytes.extend_from_slice(&0x1020_3040_u32.to_le_bytes());
    bytes.extend_from_slice(&0x5060_7080_u32.to_le_bytes());
    bytes.push(17);
    bytes.push(255);
    bytes
}

#[test]
fn valid_header_decodes_every_field_and_preserves_payload() {
    let mut datagram = valid_header();
    datagram.extend_from_slice(&[0xAA, 0xBB, 0xCC]);

    let (header, payload) = PacketHeader::decode(&datagram, F1_24_PACKET_FORMAT).expect("valid header");

    assert_eq!(header.packet_format, 2024);
    assert_eq!(header.game_year, 24);
    assert_eq!(header.game_major_version, 1);
    assert_eq!(header.game_minor_version, 7);
    assert_eq!(header.packet_version, 3);
    assert_eq!(header.packet_id, 6);
    assert_eq!(header.session_uid, 0x0102_0304_0506_0708);
    assert_eq!(header.session_time.bits, 12.5_f32.to_bits());
    assert_eq!(header.frame_identifier, 0x1020_3040);
    assert_eq!(header.overall_frame_identifier, 0x5060_7080);
    assert_eq!(header.player_car_index, 17);
    assert_eq!(header.secondary_player_car_index, 255);
    assert_eq!(payload, [0xAA, 0xBB, 0xCC]);
}

#[test]
fn header_decoder_every_truncated_header_returns_unexpected_end() {
    let bytes = valid_header();
    for length in 0..PACKET_HEADER_LEN {
        let result = PacketHeader::decode(&bytes[..length], F1_24_PACKET_FORMAT);
        assert!(
            matches!(result, Err(DecodeError::UnexpectedEnd { .. })),
            "length {length} must be rejected"
        );
    }
}

#[test]
fn non_f1_24_format_is_rejected() {
    let mut bytes = valid_header();
    bytes[0..2].copy_from_slice(&2023_u16.to_le_bytes());

    assert_eq!(
        PacketHeader::decode(&bytes, F1_24_PACKET_FORMAT),
        Err(DecodeError::UnsupportedPacketFormat { expected: 2024, actual: 2023 })
    );
}

fn car_offset(index: usize) -> usize {
    PACKET_HEADER_LEN + index * CAR_TELEMETRY_DATA_LEN
}

fn write_u16(packet: &mut [u8], offset: usize, value: u16) {
    packet[offset..offset + 2].copy_from_slice(&value.to_le_bytes());
}

fn write_f32(packet: &mut [u8], offset: usize, value: f32) {
    packet[offset..offset + 4].copy_from_slice(&value.to_le_bytes());
}

fn synthetic_packet() -> Vec<u8> {
    let mut packet = Vec::with_capacity(CAR_TELEMETRY_PACKET_LEN);
    packet.extend_from_slice(&2024_u16.to_le_bytes());
    packet.extend_from_slice(&[24, 1, 0, 1, 6]);
    packet.extend_from_slice(&0x1122_3344_5566_7788_u64.to_le_bytes());
    packet.extend_from_slice(&15.25_f32.to_le_bytes());
    packet.extend_from_slice(&88_u32.to_le_bytes());
    packet.extend_from_slice(&100_u32.to_le_bytes());
    packet.extend_from_slice(&[PLAYER_INDEX, 255]);
    packet.resize(CAR_TELEMETRY_PACKET_LEN, 0);

    let other = car_offset(0);
    write_u16(&mut packet, other, 111);

    let player = car_offset(usize::from(PLAYER_INDEX));
    write_u16(&mut packet, player, 324);
    write_f32(&mut packet, player + 2, 0.75);
    write_f32(&mut packet, player + 6, -0.25);
    write_f32(&mut packet, player + 10, 0.25);
    packet[player + 14] = 0;
    packet[player + 15] = 7_i8.to_le_bytes()[0];
    write_u16(&mut packet, player + 16, 11_800);
    packet[player + 18] = 1;
    packet
}

fn as_real(value: f32) -> Real {
    Real { bits: value.to_bits() }
}

fn float(value: Real) -> f32 {
    f32::from_bits(value.bits)
}

fn corners<T: Copy>(values: Corners<T>, convert: impl Fn(T) -> f32) -> Corners<Real> {
    Corners {
        rear_left: as_real(convert(values.rear_left)),
        rear_right: as_real(convert(values.rear_right)),
        front_left: as_real(convert(values.front_left)),
        front_right: as_real(convert(values.front_right)),
    }
}

/// Decodes a Car Telemetry datagram the way the F1 24 adapter does,
/// computing the float-valued conversions here.
fn decoded(packet: &[u8]) -> Result<TelemetryUpdate, DecodeError> {
    let mut adapter = F1_24Adapter::new().expect("valid metadata");
    match adapter.decode_packet(packet)? {
        F1Packet::CarTelemetry { header, sample, drs } => {
            let reals = TelemetryReals {
                speed_mps: as_real(f32::from(sample.speed_kph) / 3.6),
                rev_lights: as_real(f32::from(sample.rev_lights_percent) / 100.0),
                surface_temperature_c: corners(sample.tyre_surface_temperature_c, f32::from),
                inner_temperature_c: corners(sample.tyre_inner_temperature_c, f32::from),
                pressure_pa: corners(sample.tyre_pressure_psi, |psi| float(psi) * 6_894.757),
            };
            map_player_sample(&header, sample, reals, MonotonicTimestamp::from_micros(900), drs)
        }
        other => panic!("expected car telemetry, got {other:?}"),
    }
}

#[test]
fn selects_player_and_maps_verified_vehicle_fields() {
    let update = decoded(&synthetic_packet()).expect("decodes");

    let speed = float(update.vehicle.speed_mps.expect("speed is missing"));
    assert!((speed - 90.0).abs() < f32::EPSILON);
    assert_eq!(update.vehicle.gear, Some(Gear::forward(7).expect("gear")));
    assert_eq!(update.vehicle.rpm, Some(11_800));
    assert_eq!(update.vehicle.throttle.map(|n| float(n.get())), Some(0.75));
    assert_eq!(update.vehicle.brake.map(|n| float(n.get())), Some(0.25));
    assert_eq!(update.vehicle.drs, Some(DrsState::Active));
    assert_eq!(update.received_at, MonotonicTimestamp::from_micros(900));
    assert_eq!(update.session_id.as_deref(), Some("1122334455667788"));
    assert_eq!(update.frame_id, Some(100));
    assert!(update.lap.current.is_none());
    assert!(update.extensions.is_empty());
}

#[test]
fn game_adapter_appends_one_update_to_reusable_output() {
    let adapter = F1_24Adapter::new().expect("valid metadata");
    let mut output = AdapterOutput::with_capacity(1, 0);
    output.updates.push(decoded(&synthetic_packet()).expect("decodes"));

    assert_eq!(adapter.descriptor().id.as_str(), "f1-24");
    assert_eq!(output.updates.len(), 1);
    assert!(output.events.is_empty());
}

#[test]
fn truncated_car_array_is_rejected() {
    let packet = synthetic_packet();
    assert_eq!(
        decoded(&packet[..packet.len() - 1]).unwrap_err(),
        DecodeError::InvalidPacketLength {
            packet_id: 6,
            expected: CAR_TELEMETRY_PACKET_LEN,
            actual: CAR_TELEMETRY_PACKET_LEN - 1,
        }
    );
}

#[test]
fn invalid_player_index_is_rejected() {
    let mut packet = synthetic_packet();
    packet[27] = 22;
    assert_eq!(
        decoded(&packet).unwrap_err(),
        DecodeError::InvalidPlayerIndex { index: 22, car_count: 22 }
    );
}

#[test]
fn corrupt_normalized_inputs_are_rejected_without_clamping() {
    let player = car_offset(usize::from(PLAYER_INDEX));
    let cases = [
        ("throttle", player + 2, f32::NAN),
        ("throttle", player + 2, -0.01),
        ("throttle", player + 2, 1.01),
        ("brake", player + 10, f32::NAN),
        ("brake", player + 10, -0.01),
        ("brake", player + 10, 1.01),
    ];

    for (expected_field, offset, value) in cases {
        let mut packet = synthetic_packet();
        write_f32(&mut packet, offset, value);
        let error = decoded(&packet).unwrap_err();
        assert!(matches!(
            error,
            DecodeError::InvalidNormalizedValue { field, .. } if field == expected_field
        ));
    }
}

#[test]
fn unknown_gear_is_explicit_and_invalid_drs_is_rejected() {
    let player = car_offset(usize::from(PLAYER_INDEX));
    let mut packet = synthetic_packet();
    packet[player + 15] = 9_i8.to_le_bytes()[0];
    assert_eq!(decoded(&packet).expect("decodes").vehicle.gear, Some(Gear::Unknown));

    packet[player + 18] = 2;
    assert_eq!(
        decoded(&packet).unwrap_err(),
        DecodeError::InvalidEnumValue { field: "drs", actual: 2 }
    );
}

#[test]
fn wrong_packet_version_is_rejected() {
    let mut packet = synthetic_packet();
    packet[5] = 2;
    assert_eq!(
        decoded(&packet).unwrap_err(),
        DecodeError::UnsupportedPacketVersion { packet_id: 6, expected: 1, actual: 2 }
    );
}
