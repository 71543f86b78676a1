use opencarpanel::f1::adapter::{F1Adapter, F1Game, F1Packet, F1_24_PACKET_FORMAT, F1_25_2026_PACKET_FORMAT, F1_25_PACKET_FORMAT};
use opencarpanel::f1::error::DecodeError;
use opencarpanel::f1::events::{decode_event_kind, F1EventKind};
use opencarpanel::f1::header::{PacketHeader, PACKET_HEADER_LEN};
use opencarpanel::f1::mapping::{
    compound_time_ms, map_gear, map_lap_sample, map_player_sample, session_type, TelemetryReals,
};
use opencarpanel::f1::packets::{
    Corners, EventSample, CAR_TELEMETRY_DATA_LEN, CAR_TELEMETRY_PACKET_LEN, F1_25_2026_CAR_COUNT,
    F1_25_2026_CAR_TELEMETRY_DATA_LEN, F1_25_2026_CAR_TELEMETRY_PACKET_LEN, LAP_DATA_LEN,
    LAP_DATA_PACKET_LEN,
};
use opencarpanel::telemetry::model::{DrsState, Gear, MonotonicTimestamp, Real};

const SUPPORTED_HEADERS: [(u16, u8); 3] = [
    (F1_24_PACKET_FORMAT, 24),
    (F1_25_PACKET_FORMAT, 25),
    (F1_25_2026_PACKET_FORMAT, 26),
];

fn valid_header(packet_format: u16, game_year: u8) -> Vec<u8> {
    let mut bytes = Vec::with_capacity(PACKET_HEADER_LEN);
    bytes.extend_from_slice(&packet_format.to_le_bytes());
    bytes.push(game_year);
    bytes.push(1);
    bytes.push(7);
    bytes.push(3);
    bytes.push(6);
    bytes.extend_from_slice(&0x0102_0304_0506_0708_u64.to_le_bytes());
    bytes.extend_from_slice(&12.5_f32.to_le_bytes());
    bytes.extend_from_slice(&0x1020_3040_u32.to_le_bytes());
    bytes.extend_from_slice(&0x5060_7080_u32.to_le_bytes());
    bytes.push(17);
    bytes.push(255);
    bytes
}

#[test]
fn valid_headers_decode_every_field_and_preserve_payload() {
    for (packet_format, game_year) in SUPPORTED_HEADERS {
        let mut datagram = valid_header(packet_format, game_year);
        datagram.extend_from_slice(&[0xAA, 0xBB, 0xCC]);

        let (header, payload) = PacketHeader::decode(&datagram, packet_format).expect("valid header");

        assert_eq!(header.packet_format, packet_format);
        assert_eq!(header.game_year, game_year);
        assert_eq!(header.game_major_version, 1);
        assert_eq!(header.game_minor_version, 7);
        assert_eq!(header.packet_version, 3);
        assert_eq!(header.packet_id, 6);
        assert_eq!(header.session_uid, 0x0102_0304_0506_0708);
        assert_eq!(header.session_time.bits, 12.5_f32.to_bits());
        assert_eq!(header.frame_identifier, 0x1020_3040);
        assert_eq!(header.overall_frame_identifier, 0x5060_7080);
        assert_eq!(header.player_car_index, 17);
        assert_eq!(header.secondary_player_car_index, 255);
        assert_eq!(payload, [0xAA, 0xBB, 0xCC]);
    }
}

#[test]
fn every_truncated_header_returns_unexpected_end() {
    for (packet_format, game_year) in SUPPORTED_HEADERS {
        let bytes = valid_header(packet_format, game_year);
        for length in 0..PACKET_HEADER_LEN {
            let result = PacketHeader::decode(&bytes[..length], packet_format);
            assert!(
                matches!(result, Err(DecodeError::UnexpectedEnd { .. })),
                "format {packet_format} length {length} must be rejected"
            );
        }
    }
}

#[test]
fn truncation_names_the_field_that_does_not_fit() {
    let bytes = valid_header(F1_24_PACKET_FORMAT, 24);
    assert_eq!(
        PacketHeader::decode_any_format(&bytes[..10]),
        Err(DecodeError::UnexpectedEnd { offset: 7, needed: 8, remaining: 3 })
    );
    assert_eq!(
        PacketHeader::decode_any_format(&bytes[..1]),
        Err(DecodeError::UnexpectedEnd { offset: 0, needed: 2, remaining: 1 })
    );
}

#[test]
fn packet_formats_are_strictly_isolated() {
    let f1_24 = valid_header(F1_24_PACKET_FORMAT, 24);
    let f1_25 = valid_header(F1_25_PACKET_FORMAT, 25);
    let f1_25_2026 = valid_header(F1_25_2026_PACKET_FORMAT, 26);

    assert_eq!(
        PacketHeader::decode(&f1_25, F1_24_PACKET_FORMAT),
        Err(DecodeError::UnsupportedPacketFormat {
            expected: F1_24_PACKET_FORMAT,
            actual: F1_25_PACKET_FORMAT,
        })
    );
    assert_eq!(
        PacketHeader::decode(&f1_24, F1_25_PACKET_FORMAT),
        Err(DecodeError::UnsupportedPacketFormat {
            expected: F1_25_PACKET_FORMAT,
            actual: F1_24_PACKET_FORMAT,
        })
    );
    assert_eq!(
        PacketHeader::decode(&f1_25_2026, F1_25_PACKET_FORMAT),
        Err(DecodeError::UnsupportedPacketFormat {
            expected: F1_25_PACKET_FORMAT,
            actual: F1_25_2026_PACKET_FORMAT,
        })
    );
}

fn write_u16(packet: &mut [u8], offset: usize, value: u16) {
    packet[offset..offset + 2].copy_from_slice(&value.to_le_bytes());
}

fn write_f32(packet: &mut [u8], offset: usize, value: f32) {
    packet[offset..offset + 4].copy_from_slice(&value.to_le_bytes());
}

fn synthetic_packet(packet_format: u16, game_year: u8, car_data_len: usize, packet_len: usize, player_index: u8) -> Vec<u8> {
    let mut packet = Vec::with_capacity(packet_len);
    packet.extend_from_slice(&packet_format.to_le_bytes());
    packet.extend_from_slice(&[game_year, 1, 0, 1, 6]);
    packet.extend_from_slice(&0x1122_3344_5566_7788_u64.to_le_bytes());
    packet.extend_from_slice(&15.25_f32.to_le_bytes());
    packet.extend_from_slice(&88_u32.to_le_bytes());
    packet.extend_from_slice(&100_u32.to_le_bytes());
    packet.extend_from_slice(&[player_index, 255]);
    packet.resize(packet_len, 0);
    let other = PACKET_HEADER_LEN;
    write_u16(&mut packet, other, 111);
    let player = PACKET_HEADER_LEN + usize::from(player_index) * car_data_len;
    write_u16(&mut packet, player, 324);
    write_f32(&mut packet, player + 2, 0.75);
    write_f32(&mut packet, player + 6, -0.25);
    write_f32(&mut packet, player + 10, 0.25);
    packet[player + 14] = 0;
    packet[player + 15] = 7_i8.to_le_bytes()[0];
    write_u16(&mut packet, player + 16, 11_800);
    packet[player + 18] = 1;
    packet[player + 19] = 84;
    packet
}

fn f1_25_packet() -> Vec<u8> {
    synthetic_packet(F1_25_PACKET_FORMAT, 25, CAR_TELEMETRY_DATA_LEN, CAR_TELEMETRY_PACKET_LEN, 7)
}

fn f1_25_2026_packet() -> Vec<u8> {
    synthetic_packet(
        F1_25_2026_PACKET_FORMAT,
        26,
        F1_25_2026_CAR_TELEMETRY_DATA_LEN,
        F1_25_2026_CAR_TELEMETRY_PACKET_LEN,
        23,
    )
}

fn bits(value: f32) -> Real {
    Real { bits: value.to_bits() }
}

fn reals_for(speed_kph: u16, rev_percent: u8) -> TelemetryReals {
    let zero = Corners { rear_left: bits(0.0), rear_right: bits(0.0), front_left: bits(0.0), front_right: bits(0.0) };
    TelemetryReals {
        speed_mps: bits(f32::from(speed_kph) / 3.6),
        rev_lights: bits(f32::from(rev_percent) / 100.0),
        surface_temperature_c: zero,
        inner_temperature_c: zero,
        pressure_pa: zero,
    }
}

#[test]
fn every_supported_layout_selects_player_and_maps_verified_fields() {
    let mut adapter = F1Adapter::new(F1Game::F125).expect("adapter");
    for packet in [f1_25_packet(), f1_25_2026_packet()] {
        let decoded = adapter.decode_packet(&packet).expect("decodes");
        let F1Packet::CarTelemetry { header, sample, drs } = decoded else {
            panic!("expected car telemetry");
        };
        assert_eq!(sample.speed_kph, 324);
        assert_eq!(drs, DrsState::Active);
        let update = map_player_sample(
            &header,
            sample,
            reals_for(sample.speed_kph, sample.rev_lights_percent),
            MonotonicTimestamp::from_micros(900),
            drs,
        )
        .expect("maps");
        let speed = f32::from_bits(update.vehicle.speed_mps.expect("speed").bits);
        assert!((speed - 90.0).abs() < f32::EPSILON);
        assert_eq!(update.vehicle.gear, Gear::forward(7));
        assert_eq!(update.vehicle.rpm, Some(11_800));
        assert_eq!(update.vehicle.rev_lights.map(|n| f32::from_bits(n.get().bits)), Some(0.84));
        assert_eq!(update.vehicle.throttle.map(|n| f32::from_bits(n.get().bits)), Some(0.75));
        assert_eq!(update.vehicle.brake.map(|n| f32::from_bits(n.get().bits)), Some(0.25));
        assert_eq!(update.vehicle.drs, Some(DrsState::Active));
        assert_eq!(update.session_id.as_deref(), Some("1122334455667788"));
        assert_eq!(update.frame_id, Some(100));
        assert!(update.lap.current.is_none());
        assert!(update.extensions.is_empty());
    }
}

#[test]
fn season_pack_layout_enforces_24_cars_and_1448_bytes() {
    assert_eq!(F1_25_2026_CAR_COUNT, 24);
    let packet = f1_25_2026_packet();
    assert_eq!(packet.len(), 1_448);
    let mut adapter = F1Adapter::new(F1Game::F125).expect("adapter");
    assert_eq!(
        adapter.decode_packet(&packet[..CAR_TELEMETRY_PACKET_LEN]).unwrap_err(),
        DecodeError::InvalidPacketLength {
            packet_id: 6,
            expected: F1_25_2026_CAR_TELEMETRY_PACKET_LEN,
            actual: CAR_TELEMETRY_PACKET_LEN,
        }
    );
    let mut invalid_index = packet;
    invalid_index[27] = 24;
    assert_eq!(
        adapter.decode_packet(&invalid_index).unwrap_err(),
        DecodeError::InvalidPlayerIndex { index: 24, car_count: F1_25_2026_CAR_COUNT }
    );
}

#[test]
fn malformed_f1_25_packets_are_rejected_without_clamping() {
    let mut adapter = F1Adapter::new(F1Game::F125).expect("adapter");
    let player = PACKET_HEADER_LEN + 7 * CAR_TELEMETRY_DATA_LEN;
    for (expected_field, offset, value) in [
        ("throttle", player + 2, f32::NAN),
        ("throttle", player + 2, -0.01),
        ("throttle", player + 2, 1.01),
        ("brake", player + 10, f32::NAN),
        ("brake", player + 10, -0.01),
        ("brake", player + 10, 1.01),
    ] {
        let mut packet = f1_25_packet();
        write_f32(&mut packet, offset, value);
        let F1Packet::CarTelemetry { header, sample, drs } = adapter.decode_packet(&packet).expect("decodes") else {
            panic!("expected car telemetry");
        };
        let error = map_player_sample(&header, sample, reals_for(324, 84), MonotonicTimestamp::from_micros(1), drs)
            .unwrap_err();
        assert!(matches!(
            error,
            DecodeError::InvalidNormalizedValue { field, .. } if field == expected_field
        ));
    }
}

#[test]
fn invalid_version_drs_and_unknown_gear_remain_explicit() {
    let mut adapter = F1Adapter::new(F1Game::F125).expect("adapter");
    let player = PACKET_HEADER_LEN + 7 * CAR_TELEMETRY_DATA_LEN;
    let mut packet = f1_25_packet();
    packet[player + 15] = 9_i8.to_le_bytes()[0];
    let F1Packet::CarTelemetry { sample, .. } = adapter.decode_packet(&packet).expect("decodes") else {
        panic!("expected car telemetry");
    };
    assert_eq!(map_gear(sample.gear), Gear::Unknown);

    packet[player + 18] = 2;
    assert_eq!(
        adapter.decode_packet(&packet).unwrap_err(),
        DecodeError::InvalidEnumValue { field: "drs", actual: 2 }
    );

    let mut packet = f1_25_packet();
    packet[5] = 2;
    assert_eq!(
        adapter.decode_packet(&packet).unwrap_err(),
        DecodeError::UnsupportedPacketVersion { packet_id: 6, expected: 1, actual: 2 }
    );
}

#[test]
fn concrete_adapters_have_stable_ids_and_isolated_formats() {
    let mut f1_24 = F1Adapter::new(F1Game::F124).expect("adapter");
    let mut f1_25 = F1Adapter::new(F1Game::F125).expect("adapter");
    assert_eq!(f1_24.descriptor().id.as_str(), "f1-24");
    assert_eq!(f1_25.descriptor().id.as_str(), "f1-25");
    let f1_24_packet = synthetic_packet(F1_24_PACKET_FORMAT, 24, CAR_TELEMETRY_DATA_LEN, CAR_TELEMETRY_PACKET_LEN, 7);
    assert!(f1_24.decode_packet(&f1_24_packet).is_ok());
    assert!(f1_25.decode_packet(&f1_25_packet()).is_ok());
    assert!(f1_25.decode_packet(&f1_25_2026_packet()).is_ok());
    assert_eq!(
        f1_24.decode_packet(&f1_25_packet()).unwrap_err(),
        DecodeError::UnsupportedPacketFormat { expected: 2024, actual: 2025 }
    );
    assert_eq!(
        f1_25.decode_packet(&f1_24_packet).unwrap_err(),
        DecodeError::UnsupportedPacketFormats { expected: vec![2025, 2026], actual: 2024 }
    );
    assert!(f1_25.descriptor().capabilities.contains(opencarpanel::telemetry::model::TelemetryField::Aero));
    assert!(!f1_24.descriptor().capabilities.contains(opencarpanel::telemetry::model::TelemetryField::Aero));
}

#[test]
fn drs_state_follows_the_newest_frames() {
    let mut adapter = F1Adapter::new(F1Game::F125).expect("adapter");
    let mut packet = f1_25_packet();
    let F1Packet::CarTelemetry { drs, .. } = adapter.decode_packet(&packet).expect("decodes") else {
        panic!("expected car telemetry");
    };
    assert_eq!(drs, DrsState::Active);
    let player = PACKET_HEADER_LEN + 7 * CAR_TELEMETRY_DATA_LEN;
    packet[player + 18] = 0;
    packet[23..27].copy_from_slice(&99_u32.to_le_bytes());
    let F1Packet::CarTelemetry { drs, .. } = adapter.decode_packet(&packet).expect("decodes") else {
        panic!("expected car telemetry");
    };
    assert_eq!(drs, DrsState::Active, "an older frame keeps DRS open");
    assert_eq!(adapter.drs_state(), DrsState::Active);
}

#[test]
fn lap_completion_is_reported_once_per_new_lap() {
    let mut adapter = F1Adapter::new(F1Game::F125).expect("adapter");
    assert_eq!(adapter.complete_lap(10, Some(3)), None);
    assert_eq!(adapter.complete_lap(11, Some(3)), None);
    assert_eq!(adapter.complete_lap(12, Some(4)), Some(3));
    assert_eq!(adapter.complete_lap(9, Some(9)), None, "stale frames are ignored");
    assert_eq!(adapter.complete_lap(13, Some(5)), Some(4));
}

#[test]
fn lap_packets_decode_and_map_sector_times() {
    let mut adapter = F1Adapter::new(F1Game::F125).expect("adapter");
    let mut packet = synthetic_packet(F1_25_PACKET_FORMAT, 25, LAP_DATA_LEN, LAP_DATA_PACKET_LEN, 7);
    packet[6] = 2;
    let p = PACKET_HEADER_LEN + 7 * LAP_DATA_LEN;
    for byte in &mut packet[p..p + LAP_DATA_LEN] {
        *byte = 0;
    }
    packet[p + 10] = 1;
    write_u16(&mut packet, p + 8, 2_000);
    packet[p + 33] = 4;
    packet[p + 36] = 2;
    let F1Packet::Lap { header, sample } = adapter.decode_packet(&packet).expect("decodes") else {
        panic!("expected lap data");
    };
    let update = map_lap_sample(&header, sample, Some(0), MonotonicTimestamp::from_micros(5)).expect("maps");
    assert_eq!(update.lap.current, Some(4));
    assert_eq!(update.lap.sector, Some(3));
    assert_eq!(update.lap.sector1_time_ms, Some(62_000));
    assert_eq!(
        map_lap_sample(&header, sample, None, MonotonicTimestamp::from_micros(5)).unwrap_err(),
        DecodeError::InvalidNumericValue { field: "safety_car_delta", value: sample.safety_car_delta_s }
    );
    packet[p + 36] = 3;
    let F1Packet::Lap { header, sample } = adapter.decode_packet(&packet).expect("decodes") else {
        panic!("expected lap data");
    };
    assert_eq!(
        map_lap_sample(&header, sample, Some(0), MonotonicTimestamp::from_micros(5)).unwrap_err(),
        DecodeError::InvalidEnumValue { field: "sector", actual: 3 }
    );
}

#[test]
fn small_mappings_follow_the_specification_tables() {
    assert_eq!(compound_time_ms(1, 2_345), 62_345);
    assert_eq!(session_type(10), "race");
    assert_eq!(session_type(0), "unknown");
    assert_eq!(map_gear(-1), Gear::Reverse);
    assert_eq!(map_gear(0), Gear::Neutral);
    assert_eq!(map_gear(8), Gear::forward(8).expect("gear"));
    assert_eq!(map_gear(-2), Gear::Unknown);
}

#[test]
fn events_are_classified_and_their_floats_checked() {
    let mut details = [0u8; 12];
    details[0] = 7;
    details[1..5].copy_from_slice(&81.25_f32.to_le_bytes());
    let fastest = EventSample { code: *b"FTLP", details };
    match decode_event_kind(&fastest, 7).expect("decodes") {
        F1EventKind::FastestLap { vehicle, is_player, lap_time_s } => {
            assert_eq!(vehicle, 7);
            assert!(is_player);
            assert_eq!(lap_time_s, bits(81.25));
        }
        other => panic!("unexpected {other:?}"),
    }
    details[1..5].copy_from_slice(&f32::INFINITY.to_le_bytes());
    let invalid = EventSample { code: *b"FTLP", details };
    assert_eq!(
        decode_event_kind(&invalid, 7).unwrap_err(),
        DecodeError::InvalidNumericValue { field: "fastest_lap_time", value: bits(f32::INFINITY) }
    );
    let unknown = EventSample { code: *b"ABCD", details };
    let kind = decode_event_kind(&unknown, 7).expect("decodes");
    assert_eq!(kind.name(), "f1.event");
    assert_eq!(kind, F1EventKind::Other { code: *b"ABCD" });
    let penalty = EventSample { code: *b"PENA", details: [1, 2, 7, 4, 5, 6, 7, 0, 0, 0, 0, 0] };
    assert_eq!(decode_event_kind(&penalty, 7).expect("decodes").name(), "penalty.issued");
}
