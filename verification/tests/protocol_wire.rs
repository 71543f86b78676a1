use opencarpanel::protocol::{
    check_protocol_version, decide_client_message, decode_client_message, decode_server_message,
    schema_paths, ClientHello, ClientMessage, ClientPayload, ErrorCode, ErrorMessage,
    EventAckMessage, SchemaDocument, ServerHello, ServerMessage, ServerPayload,
    SnapshotRequestMessage, StaleMessage, StaleReason, WireDecodeError, PROTOCOL_VERSION,
};

fn rejected<T>(result: Result<T, WireDecodeError>) -> WireDecodeError {
    match result {
        Ok(_) => panic!("message unexpectedly decoded"),
        Err(error) => error,
    }
}

#[test]
fn unsupported_version_is_rejected_before_payload_use() {
    let error = rejected(decode_client_message(
        br#"{"v":2,"type":"event_ack","seq":1}"#,
        Ok(ClientPayload::EventAck(EventAckMessage { seq: 1 })),
    ));

    assert_eq!(
        error,
        WireDecodeError::UnsupportedVersion {
            expected: 1,
            actual: 2,
        }
    );
}

#[test]
fn a_current_envelope_carries_the_typed_payload() {
    let message = decode_client_message(
        br#"{"v":1,"type":"event_ack","seq":11}"#,
        Ok(ClientPayload::EventAck(EventAckMessage { seq: 11 })),
    )
    .expect("decodes");
    assert_eq!(message, ClientMessage::new(ClientPayload::EventAck(EventAckMessage { seq: 11 })));
    assert_eq!(message.v, PROTOCOL_VERSION);
}

#[test]
fn unknown_message_type_returns_a_protocol_error() {
    let error = rejected(decode_server_message(
        br#"{"v":1,"type":"future_message"}"#,
        Err("unknown variant `future_message`".to_owned()),
    ));
    assert!(matches!(error, WireDecodeError::InvalidMessage { .. }));
}

#[test]
fn malformed_input_returns_a_protocol_error_without_panicking() {
    let error = rejected(decode_server_message(
        br#"{"v":1,"type":"snapshot"}"#,
        Err("missing field `seq`".to_owned()),
    ));
    assert!(matches!(error, WireDecodeError::InvalidMessage { .. }));
}

#[test]
fn envelope_failures_name_their_cause() {
    let not_json = rejected(decode_client_message(b"{", Err("unused".to_owned())));
    match not_json {
        WireDecodeError::InvalidMessage { message } => assert!(message.contains("EOF"), "{message}"),
        other => panic!("unexpected {other:?}"),
    }
    let missing = rejected(decode_client_message(br#"{"type":"event_ack"}"#, Err("unused".to_owned())));
    assert_eq!(missing.to_string(), "invalid protocol message: missing or invalid `v` field");
    let huge = rejected(decode_client_message(br#"{"v":70000}"#, Err("unused".to_owned())));
    assert_eq!(
        huge.to_string(),
        "invalid protocol message: protocol version is outside the supported integer range"
    );
    let negative = rejected(decode_client_message(br#"{"v":-1}"#, Err("unused".to_owned())));
    assert_eq!(negative.to_string(), "invalid protocol message: missing or invalid `v` field");
}

#[test]
fn version_rules_are_checked_in_order() {
    assert_eq!(check_protocol_version(Some(1)), Ok(1));
    assert_eq!(
        check_protocol_version(Some(0)),
        Err(WireDecodeError::UnsupportedVersion { expected: 1, actual: 0 })
    );
    assert_eq!(
        check_protocol_version(Some(65_535)).err().map(|e| e.to_string()),
        Some("unsupported protocol version 65535; expected 1".to_owned())
    );
    assert!(matches!(check_protocol_version(Some(65_536)), Err(WireDecodeError::InvalidMessage { .. })));
    assert!(matches!(check_protocol_version(None), Err(WireDecodeError::InvalidMessage { .. })));
    assert_eq!(
        decide_client_message(Ok(Some(1)), Err("bad shape".to_owned())),
        Err(WireDecodeError::InvalidMessage { message: "bad shape".to_owned() })
    );
    assert_eq!(
        decide_client_message(Err("parse".to_owned()), Ok(ClientPayload::SnapshotRequest(SnapshotRequestMessage {}))),
        Err(WireDecodeError::InvalidMessage { message: "parse".to_owned() })
    );
}

#[test]
fn messages_are_wrapped_with_the_current_version() {
    let hello = ClientMessage::new(ClientPayload::Hello(ClientHello {
        pairing_token: Some("pair-once".into()),
        device_session: None,
        device_name: Some("Test tablet".into()),
        last_event_seq: Some(10),
        snapshot_hz: 60,
    }));
    assert_eq!(hello.v, 1);
    let server = ServerMessage::new(ServerPayload::Stale(StaleMessage {
        since_us: 5_000_000,
        reason: StaleReason::GameDataTimeout,
    }));
    assert_eq!(server.v, 1);
    let error = ServerMessage::new(ServerPayload::Error(ErrorMessage {
        code: ErrorCode::UnsupportedVersion,
        message: "upgrade the dashboard".into(),
        retryable: false,
    }));
    assert_eq!(error.v, 1);
    let greeting = ServerMessage::new(ServerPayload::Hello(ServerHello {
        server_version: "0.1.0".into(),
        protocol_version: 1,
        device_session: Some("device-session".into()),
    }));
    assert_eq!(greeting.v, 1);
}

#[test]
fn generated_schema_bundle_has_stable_paths() {
    assert_eq!(
        schema_paths(),
        [
            "protocol/v1/client-message.schema.json",
            "protocol/v1/server-message.schema.json",
            "game-plugin/v1/manifest.schema.json",
            "game-plugin/v1/package.schema.json",
            "telemetry/v1/telemetry-event.schema.json",
            "telemetry/v1/telemetry-snapshot.schema.json",
            "telemetry/v1/telemetry-update.schema.json",
        ]
    );
    let document = SchemaDocument::new("protocol/v1/client-message.schema.json", "{}".to_owned());
    assert_eq!(document.relative_path(), "protocol/v1/client-message.schema.json");
    assert_eq!(document.json(), "{}\n");
    assert!(document.json().ends_with('\n'));
}
