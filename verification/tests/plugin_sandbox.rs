use opencarpanel::adapter::AdapterOutput;
use opencarpanel::config::json::{JsonMember, JsonValue};
use opencarpanel::plugin::manifest::{
    GamePluginManifest, PluginGameFamily, PluginIngress, PluginIngressKind, PluginLayoutPreset,
    PluginPresentation, PluginProtocol, PluginRuntime, PluginSetup, PluginStatusMode, PluginTheme,
    GAME_PLUGIN_ABI_VERSION, GAME_PLUGIN_MANIFEST_VERSION,
};
use opencarpanel::plugin::runtime::PluginDecodeOutput;
use opencarpanel::plugin::sandbox::{
    abi_input_len, abi_timestamp, check_abi_version, check_datagram_len, check_input_fits,
    check_memory_exported, check_module_request, check_no_imports, check_output_fits, finish_decode,
    plugin_descriptor, validate_json_shape, MAX_OUTPUT_JSON_DEPTH, MAX_OUTPUT_STRING_BYTES,
};
use opencarpanel::telemetry::model::{MonotonicTimestamp, TelemetryField};
use opencarpanel::telemetry::state::{TelemetryEvent, TelemetryUpdate};

fn manifest() -> GamePluginManifest {
    GamePluginManifest {
        schema_version: GAME_PLUGIN_MANIFEST_VERSION,
        id: "example-game".to_owned(),
        name: "Example Game".to_owned(),
        version: "1.0.0".to_owned(),
        publisher: "Example Publisher".to_owned(),
        license: "Apache-2.0".to_owned(),
        description: "Example UDP telemetry decoder.".to_owned(),
        runtime: PluginRuntime::Wasm {
            abi_version: GAME_PLUGIN_ABI_VERSION,
            module: "decoder.wasm".to_owned(),
            sha256: "a".repeat(64),
        },
        protocol: PluginProtocol {
            name: "Example UDP".to_owned(),
            version: "1".to_owned(),
        },
        ingress: PluginIngress {
            kind: PluginIngressKind::SharedUdp,
            default_port: 20_777,
            max_datagram_bytes: 1_024,
        },
        capabilities: vec![TelemetryField::VehicleSpeed, TelemetryField::VehicleGear],
        presentation: PluginPresentation {
            short_name: "EXAMPLE".to_owned(),
            detail: "UDP / V1".to_owned(),
            family: PluginGameFamily::Generic,
            status_mode: PluginStatusMode::Generic,
            layout_preset: PluginLayoutPreset::Generic,
            theme: PluginTheme {
                background: "#07090c".to_owned(),
                foreground: "#f2f0e9".to_owned(),
                accent: "#d9ff43".to_owned(),
                warning: "#ff4b3e".to_owned(),
            },
            fallback_rpm_max: 8_000,
            widgets: vec!["core.speed".to_owned()],
        },
        setup: PluginSetup::Udp {
            steps: vec!["Enable UDP telemetry.".to_owned()],
        },
    }
}

#[test]
fn rejects_deep_or_oversized_json_shapes() {
    let mut deep = JsonValue::Null;
    for _ in 0..=MAX_OUTPUT_JSON_DEPTH {
        deep = JsonValue::Array(vec![deep]);
    }
    assert!(validate_json_shape(&deep).is_err());
    assert!(validate_json_shape(&JsonValue::String("x".repeat(MAX_OUTPUT_STRING_BYTES + 1))).is_err());
}

#[test]
fn json_shape_limits_are_inclusive_and_named() {
    let mut deep = JsonValue::Null;
    for _ in 0..MAX_OUTPUT_JSON_DEPTH - 1 {
        deep = JsonValue::Array(vec![deep]);
    }
    assert_eq!(validate_json_shape(&deep), Ok(()));
    let too_deep = JsonValue::Array(vec![deep]);
    assert_eq!(
        validate_json_shape(&too_deep).err().map(|e| e.to_string()),
        Some("decoder output JSON nesting is too deep".to_owned())
    );
    let many = JsonValue::Array((0..8_191).map(|_| JsonValue::Null).collect());
    assert_eq!(validate_json_shape(&many), Ok(()));
    let too_many = JsonValue::Array((0..8_192).map(|_| JsonValue::Null).collect());
    assert_eq!(
        validate_json_shape(&too_many).err().map(|e| e.to_string()),
        Some("decoder output contains too many JSON values".to_owned())
    );
    let long_key = JsonValue::Object(vec![JsonMember { key: "k".repeat(129), value: JsonValue::Null }]);
    assert_eq!(
        validate_json_shape(&long_key).err().map(|e| e.to_string()),
        Some("decoder output contains an oversized object key".to_owned())
    );
}

#[test]
fn module_requests_are_checked_before_compilation() {
    let valid = manifest();
    assert!(check_module_request(&valid, 100).is_ok());
    assert_eq!(
        check_module_request(&valid, 0).err().map(|e| e.to_string()),
        Some("WASM module size is outside the supported range".to_owned())
    );
    assert!(check_module_request(&valid, 2 * 1024 * 1024 + 1).is_err());
    let mut builtin = manifest();
    builtin.runtime = PluginRuntime::Builtin { entrypoint: "example-game".to_owned() };
    assert!(check_module_request(&builtin, 100).is_err());
}

#[test]
fn abi_and_guest_sizes_are_checked() {
    assert!(check_abi_version(1).is_ok());
    assert_eq!(
        check_abi_version(2).err().map(|e| e.to_string()),
        Some("WASM decoder ABI 2 is unsupported; expected 1".to_owned())
    );
    assert_eq!(
        check_abi_version(-7).err().map(|e| e.to_string()),
        Some("WASM decoder ABI -7 is unsupported; expected 1".to_owned())
    );
    assert!(check_datagram_len(1_024, 1_024).is_ok());
    assert!(check_datagram_len(1_025, 1_024).is_err());
    assert!(check_input_fits(10, 10).is_ok());
    assert!(check_input_fits(11, 10).is_err());
    assert!(check_output_fits(11, 10).is_err());
    assert_eq!(abi_input_len(6).ok(), Some(6));
    assert_eq!(abi_timestamp(MonotonicTimestamp::from_micros(42)).ok(), Some(42));
    assert!(abi_timestamp(MonotonicTimestamp::from_micros(u64::MAX)).is_err());
}

#[test]
fn plugin_descriptors_come_from_the_manifest() {
    let (descriptor, max) = plugin_descriptor(&manifest()).expect("valid id");
    assert_eq!(descriptor.id.as_str(), "example-game");
    assert_eq!(descriptor.display_name, "Example Game");
    assert_eq!(descriptor.protocol_version, "1");
    assert_eq!(descriptor.capabilities.len(), 2);
    assert_eq!(max, 1_024);
    let mut bad = manifest();
    bad.id = "Bad Id".to_owned();
    assert!(plugin_descriptor(&bad).is_err());
}

#[test]
fn finished_responses_are_restamped_and_unknown_schemas_refused() {
    let update = TelemetryUpdate {
        received_at: MonotonicTimestamp::from_micros(1),
        ..TelemetryUpdate::default()
    };
    let event = TelemetryEvent {
        name: "lap.completed".to_owned(),
        occurred_at: MonotonicTimestamp::from_micros(3),
        data: serde_json::Value::Null,
    };
    let decoded = PluginDecodeOutput { schema_version: 1, updates: vec![update], events: vec![event] };
    let mut output = AdapterOutput::default();
    finish_decode(decoded, "example-game", MonotonicTimestamp::from_micros(42), &mut output).expect("accepted");
    assert_eq!(output.updates.len(), 1);
    assert_eq!(output.updates[0].received_at.as_micros(), 42);
    assert_eq!(output.events[0].occurred_at.as_micros(), 42);

    let refused = PluginDecodeOutput { schema_version: 2, updates: Vec::new(), events: Vec::new() };
    let mut untouched = AdapterOutput::default();
    let error = finish_decode(refused, "example-game", MonotonicTimestamp::from_micros(42), &mut untouched)
        .expect_err("version 2");
    assert_eq!(error.to_string(), "decoder output schema 2 is unsupported; expected 1");
    assert!(untouched.updates.is_empty());
}

#[test]
fn module_shape_checks_refuse_imports_and_a_missing_memory() {
    assert!(check_no_imports(false).is_ok());
    assert_eq!(
        check_no_imports(true).err().map(|e| e.to_string()),
        Some("WASM decoder must not import Host or WASI functions".to_owned())
    );
    assert!(check_memory_exported(true).is_ok());
    assert_eq!(
        check_memory_exported(false).err().map(|e| e.to_string()),
        Some("WASM decoder does not export memory".to_owned())
    );
}
