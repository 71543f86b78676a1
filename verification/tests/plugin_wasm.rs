use opencarpanel::adapter::AdapterOutput;
use opencarpanel::config::json::{JsonMember, JsonNumber, JsonValue};
use opencarpanel::plugin::manifest::{
    GamePluginManifest, PluginGameFamily, PluginIngress, PluginIngressKind, PluginLayoutPreset,
    PluginPresentation, PluginProtocol, PluginRuntime, PluginSetup, PluginStatusMode, PluginTheme,
    GAME_PLUGIN_ABI_VERSION, GAME_PLUGIN_MANIFEST_VERSION,
};
use opencarpanel::plugin::runtime::PluginDecodeOutput;
use opencarpanel::plugin::sandbox::finish_decode;
use opencarpanel::plugin::wasm::{check_guest_output, check_parsed_output, decode_with_guest, load_wasm_plugin};
use opencarpanel::telemetry::model::{MonotonicTimestamp, Real, TelemetryField};
use opencarpanel::telemetry::state::TelemetryUpdate;

fn manifest() -> GamePluginManifest {
    GamePluginManifest {
        schema_version: GAME_PLUGIN_MANIFEST_VERSION,
        id: "example-game".to_owned(),
        name: "Example Game".to_owned(),
        version: "1.0.0".to_owned(),
        publisher: "Example Publisher".to_owned(),
        license: "Apache-2.0".to_owned(),
        description: "Example UDP telemetry decoder.".to_owned(),
        runtime: PluginRuntime::Wasm {
            abi_version: GAME_PLUGIN_ABI_VERSION,
            module: "decoder.wasm".to_owned(),
            sha256: "a".repeat(64),
        },
        protocol: PluginProtocol { name: "Example UDP".to_owned(), version: "1".to_owned() },
        ingress: PluginIngress {
            kind: PluginIngressKind::SharedUdp,
            default_port: 20_777,
            max_datagram_bytes: 1_024,
        },
        capabilities: vec![TelemetryField::VehicleSpeed, TelemetryField::VehicleGear],
        presentation: PluginPresentation {
            short_name: "EXAMPLE".to_owned(),
            detail: "UDP / V1".to_owned(),
            family: PluginGameFamily::Generic,
            status_mode: PluginStatusMode::Generic,
            layout_preset: PluginLayoutPreset::Generic,
            theme: PluginTheme {
                background: "#07090c".to_owned(),
                foreground: "#f2f0e9".to_owned(),
                accent: "#d9ff43".to_owned(),
                warning: "#ff4b3e".to_owned(),
            },
            fallback_rpm_max: 8_000,
            widgets: vec!["core.speed".to_owned()],
        },
        setup: PluginSetup::Udp { steps: vec!["Enable UDP telemetry.".to_owned()] },
    }
}

fn wat_escape(text: &str) -> String {
    text.replace('\\', "\\\\").replace('"', "\\\"")
}

fn decoder_module(abi: i32, response: &str) -> String {
    format!(
        r#"(module
          (memory (export "memory") 6 64)
          (data (i32.const 65536) "{}")
          (func (export "osd_plugin_abi_version") (result i32) i32.const {})
          (func (export "osd_input_ptr") (result i32) i32.const 0)
          (func (export "osd_input_capacity") (result i32) i32.const 65536)
          (func (export "osd_output_ptr") (result i32) i32.const 65536)
          (func (export "osd_output_capacity") (result i32) i32.const 262144)
          (func (export "osd_decode") (param i32 i64) (result i32) i32.const {})
        )"#,
        wat_escape(response),
        abi,
        response.len(),
    )
}

fn member<'a>(value: &'a JsonValue, key: &str) -> Option<&'a JsonValue> {
    match value {
        JsonValue::Object(members) => members.iter().find(|m| m.key == key).map(|m: &JsonMember| &m.value),
        _ => None,
    }
}

#[test]
fn runs_a_bounded_decoder_and_overwrites_guest_timestamps() {
    let response = r#"{"schemaVersion":1,"updates":[{"receivedAt":1,"vehicle":{"speedMps":12.5}}],"events":[]}"#;
    let module = decoder_module(1, response);
    let mut sandbox = load_wasm_plugin(&manifest(), module.as_bytes()).expect("loads");
    assert_eq!(sandbox.descriptor().id.as_str(), "example-game");
    let value = decode_with_guest(&mut sandbox, b"packet", MonotonicTimestamp::from_micros(42)).expect("decodes");
    assert_eq!(member(&value, "schemaVersion"), Some(&JsonValue::Number(JsonNumber::PosInt(1))));
    let updates = member(&value, "updates").expect("updates");
    let JsonValue::Array(items) = updates else { panic!("updates is an array") };
    assert_eq!(items.len(), 1);
    let speed = member(member(&items[0], "vehicle").expect("vehicle"), "speedMps").expect("speed");
    assert_eq!(speed, &JsonValue::Number(JsonNumber::Float("12.5".to_owned())));

    let mut update = TelemetryUpdate::default();
    update.received_at = MonotonicTimestamp::from_micros(1);
    update.vehicle.speed_mps = Some(Real { bits: 12.5_f32.to_bits() });
    let decoded = PluginDecodeOutput { schema_version: 1, updates: vec![update], events: Vec::new() };
    let mut output = AdapterOutput::default();
    finish_decode(decoded, "example-game", MonotonicTimestamp::from_micros(42), &mut output).expect("accepted");
    assert_eq!(output.updates.len(), 1);
    assert_eq!(output.updates[0].received_at.as_micros(), 42);
    assert_eq!(output.updates[0].vehicle.speed_mps, Some(Real { bits: 12.5_f32.to_bits() }));
}

#[test]
fn rejects_modules_with_imports() {
    let module = r#"(module (import "wasi_snapshot_preview1" "fd_write" (func)))"#;
    let result = load_wasm_plugin(&manifest(), module.as_bytes());
    assert_eq!(
        result.err().map(|e| e.to_string()),
        Some("WASM decoder must not import Host or WASI functions".to_owned())
    );
}

#[test]
fn fuel_stops_a_decoder_that_never_returns() {
    let module = r#"(module
      (memory (export "memory") 6 64)
      (func (export "osd_plugin_abi_version") (result i32) i32.const 1)
      (func (export "osd_input_ptr") (result i32) i32.const 0)
      (func (export "osd_input_capacity") (result i32) i32.const 65536)
      (func (export "osd_output_ptr") (result i32) i32.const 65536)
      (func (export "osd_output_capacity") (result i32) i32.const 262144)
      (func (export "osd_decode") (param i32 i64) (result i32)
        (loop $forever br $forever)
        i32.const 0)
    )"#;
    let mut sandbox = load_wasm_plugin(&manifest(), module.as_bytes()).expect("loads");
    let error = decode_with_guest(&mut sandbox, b"packet", MonotonicTimestamp::from_micros(42)).expect_err("traps");
    assert!(error.to_string().starts_with("WASM decoder trapped: "));
}

#[test]
fn rejects_a_module_whose_initial_memory_exceeds_the_limit() {
    let module = r#"(module
      (memory (export "memory") 65 65)
      (func (export "osd_plugin_abi_version") (result i32) i32.const 1)
      (func (export "osd_input_ptr") (result i32) i32.const 0)
      (func (export "osd_input_capacity") (result i32) i32.const 65536)
      (func (export "osd_output_ptr") (result i32) i32.const 65536)
      (func (export "osd_output_capacity") (result i32) i32.const 262144)
      (func (export "osd_decode") (param i32 i64) (result i32) i32.const 0)
    )"#;
    let error = load_wasm_plugin(&manifest(), module.as_bytes()).err().expect("too large");
    assert!(error.to_string().starts_with("module instantiation failed: "));
}

#[test]
fn bytes_that_are_no_module_fail_validation() {
    let error = load_wasm_plugin(&manifest(), b"not a module").err().expect("invalid");
    assert!(error.to_string().starts_with("module validation failed: "));
}

#[test]
fn a_module_without_memory_or_exports_is_refused() {
    let no_memory = r#"(module (func (export "osd_plugin_abi_version") (result i32) i32.const 1))"#;
    assert_eq!(
        load_wasm_plugin(&manifest(), no_memory.as_bytes()).err().map(|e| e.to_string()),
        Some("WASM decoder does not export memory".to_owned())
    );
    let no_decode = r#"(module
      (memory (export "memory") 1 1)
      (func (export "osd_plugin_abi_version") (result i32) i32.const 1)
      (func (export "osd_input_ptr") (result i32) i32.const 0)
      (func (export "osd_input_capacity") (result i32) i32.const 16)
      (func (export "osd_output_ptr") (result i32) i32.const 16)
      (func (export "osd_output_capacity") (result i32) i32.const 16)
    )"#;
    assert_eq!(
        load_wasm_plugin(&manifest(), no_decode.as_bytes()).err().map(|e| e.to_string()),
        Some("WASM decoder export osd_decode has the wrong signature".to_owned())
    );
}

#[test]
fn a_module_reporting_another_abi_is_refused() {
    let module = decoder_module(2, "{}");
    assert_eq!(
        load_wasm_plugin(&manifest(), module.as_bytes()).err().map(|e| e.to_string()),
        Some("WASM decoder ABI 2 is unsupported; expected 1".to_owned())
    );
}

#[test]
fn the_manifest_is_checked_before_the_module_is_compiled() {
    let mut builtin = manifest();
    builtin.runtime = PluginRuntime::Builtin { entrypoint: "example-game".to_owned() };
    assert_eq!(
        load_wasm_plugin(&builtin, b"not a module").err().map(|e| e.to_string()),
        Some("WasmGameAdapter requires a WASM manifest".to_owned())
    );
    assert_eq!(
        load_wasm_plugin(&manifest(), b"").err().map(|e| e.to_string()),
        Some("WASM module size is outside the supported range".to_owned())
    );
}

#[test]
fn datagrams_above_the_ingress_limit_are_refused() {
    let module = decoder_module(1, "{}");
    let mut sandbox = load_wasm_plugin(&manifest(), module.as_bytes()).expect("loads");
    let error = decode_with_guest(&mut sandbox, &[0_u8; 1_025], MonotonicTimestamp::from_micros(1)).expect_err("too long");
    assert_eq!(error.to_string(), "datagram exceeds the plugin ingress limit");
    let value = decode_with_guest(&mut sandbox, &[0_u8; 1_024], MonotonicTimestamp::from_micros(1)).expect("fits");
    assert_eq!(value, JsonValue::Object(Vec::new()));
}

#[test]
fn guest_output_is_parsed_and_bounded() {
    assert_eq!(check_guest_output(b"[1,true]"), Ok(JsonValue::Array(vec![
        JsonValue::Number(JsonNumber::PosInt(1)),
        JsonValue::Bool(true),
    ])));
    let invalid = check_guest_output(b"{").expect_err("invalid");
    assert!(invalid.to_string().starts_with("decoder output JSON is invalid: "));
    let deep = format!("{}{}", "[".repeat(33), "]".repeat(33));
    assert_eq!(
        check_guest_output(deep.as_bytes()).err().map(|e| e.to_string()),
        Some("decoder output JSON nesting is too deep".to_owned())
    );
    assert_eq!(
        check_parsed_output(Err("EOF".to_owned())).err().map(|e| e.to_string()),
        Some("decoder output JSON is invalid: EOF".to_owned())
    );
    assert_eq!(check_parsed_output(Ok(JsonValue::Null)), Ok(JsonValue::Null));
}
