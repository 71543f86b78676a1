use opencarpanel::plugin::manifest::{
    GamePluginManifest, GamePluginPackage, ManifestError, PluginGameFamily, PluginIngress,
    PluginIngressKind, PluginLayoutPreset, PluginPresentation, PluginProtocol, PluginRuntime,
    PluginSetup, PluginStatusMode, PluginTheme, GAME_PLUGIN_ABI_VERSION,
    GAME_PLUGIN_MANIFEST_VERSION, GAME_PLUGIN_PACKAGE_VERSION,
};
use opencarpanel::plugin::runtime::{
    admit_plugin, decode_result, ensure_plugin_package_extension, non_negative, plugin_directory, push_issue,
    safe_directory_id, valid_event_name, validate_output_semantics, verify_package, wasm_error,
    LoadDecision, PluginDecodeOutput, PluginLoadIssue, PluginPackageError,
    MAX_PLUGIN_LOAD_ISSUES, MAX_WASM_ERROR_BYTES,
};
use sha2::Digest;
use opencarpanel::telemetry::model::{MonotonicTimestamp, TelemetryField};
use opencarpanel::telemetry::state::{Namespaced, TelemetryEvent, TelemetryUpdate};

fn wasm_manifest(sha256: String) -> GamePluginManifest {
    GamePluginManifest {
        schema_version: GAME_PLUGIN_MANIFEST_VERSION,
        id: "example-game".to_owned(),
        name: "Example Game".to_owned(),
        version: "1.0.0".to_owned(),
        publisher: "Example Publisher".to_owned(),
        license: "Apache-2.0".to_owned(),
        description: "Example UDP telemetry decoder.".to_owned(),
        runtime: PluginRuntime::Wasm {
            abi_version: GAME_PLUGIN_ABI_VERSION,
            module: "decoder.wasm".to_owned(),
            sha256,
        },
        protocol: PluginProtocol {
            name: "Example UDP".to_owned(),
            version: "1".to_owned(),
        },
        ingress: PluginIngress {
            kind: PluginIngressKind::SharedUdp,
            default_port: 20_777,
            max_datagram_bytes: 1_024,
        },
        capabilities: vec![TelemetryField::VehicleSpeed],
        presentation: PluginPresentation {
            short_name: "EXAMPLE".to_owned(),
            detail: "UDP / V1".to_owned(),
            family: PluginGameFamily::Generic,
            status_mode: PluginStatusMode::Generic,
            layout_preset: PluginLayoutPreset::Generic,
            theme: PluginTheme {
                background: "#07090c".to_owned(),
                foreground: "#f2f0e9".to_owned(),
                accent: "#d9ff43".to_owned(),
                warning: "#ff4b3e".to_owned(),
            },
            fallback_rpm_max: 8_000,
            widgets: vec!["core.speed".to_owned()],
        },
        setup: PluginSetup::Udp {
            steps: vec!["Enable UDP telemetry.".to_owned()],
        },
    }
}

fn package(sha256: String, module_base64: &str) -> GamePluginPackage {
    GamePluginPackage {
        package_version: GAME_PLUGIN_PACKAGE_VERSION,
        manifest: wasm_manifest(sha256),
        module_base64: module_base64.to_owned(),
    }
}

/// Base64 of the bytes `not-wasm`.
const NOT_WASM_BASE64: &str = "bm90LXdhc20=";

#[test]
fn rejects_a_package_whose_module_digest_does_not_match() {
    let parsed: Result<GamePluginPackage, ManifestError> = Ok(package("0".repeat(64), NOT_WASM_BASE64));
    assert!(verify_package(64, parsed).is_err());
}

#[test]
fn a_matching_package_decodes_its_module() {
    let digest = sha256_hex(b"not-wasm");
    let verified = verify_package(64, Ok(package(digest, NOT_WASM_BASE64))).expect("verifies");
    assert_eq!(verified.module, b"not-wasm".to_vec());
    assert_eq!(verified.manifest.id, "example-game");
}

#[test]
fn package_failures_follow_the_check_order() {
    let too_large = verify_package(4 * 1024 * 1024 + 1, Ok(package("0".repeat(64), NOT_WASM_BASE64)));
    assert_eq!(too_large.err().map(|e| e.to_string()), Some("package exceeds the 4 MiB limit".to_owned()));

    let invalid = verify_package(64, Ok(package("0".repeat(64), "***")));
    assert_eq!(invalid.err().map(|e| e.to_string()), Some("moduleBase64 is invalid".to_owned()));

    let empty = verify_package(64, Ok(package("0".repeat(64), "")));
    assert_eq!(
        empty.err().map(|e| e.to_string()),
        Some("decoded WASM module must be within 1 byte..=2 MiB".to_owned())
    );

    let mismatch = verify_package(64, Ok(package("0".repeat(64), NOT_WASM_BASE64)));
    assert_eq!(
        mismatch.err().map(|e| e.to_string()),
        Some("WASM SHA-256 does not match the manifest".to_owned())
    );
}

#[test]
fn package_extension_is_strict_and_canonical() {
    assert!(ensure_plugin_package_extension(Some("example.osd-plugin")).is_ok());
    assert!(ensure_plugin_package_extension(Some("example.plugin")).is_err());
    assert!(ensure_plugin_package_extension(Some("example.OSD-PLUGIN")).is_err());
    assert!(ensure_plugin_package_extension(Some("example")).is_err());
    assert!(ensure_plugin_package_extension(None).is_err());
}

#[test]
fn plugin_directory_never_accepts_path_components() {
    assert!(plugin_directory("plugins", "../escape").is_err());
    assert!(plugin_directory("plugins", "safe-game").is_ok());
    assert_eq!(plugin_directory("plugins", "safe-game").ok(), Some("plugins/safe-game".to_owned()));
}

#[test]
fn plugin_directory_ids_never_hold_path_components() {
    assert_eq!(safe_directory_id("../escape"), None);
    assert_eq!(safe_directory_id("safe-game"), Some("safe-game".to_owned()));
}

#[test]
fn discovery_issue_collection_is_bounded() {
    let mut issues = Vec::new();
    for index in 0..=MAX_PLUGIN_LOAD_ISSUES {
        push_issue(
            &mut issues,
            PluginLoadIssue {
                plugin_id: Some(format!("plugin-{index}")),
                message: "invalid".to_owned(),
            },
        );
    }
    assert_eq!(issues.len(), MAX_PLUGIN_LOAD_ISSUES);
    assert_eq!(issues[0].plugin_id.as_deref(), Some("plugin-0"));
}

#[test]
fn runtime_errors_are_bounded_before_reaching_diagnostics() {
    let error = wasm_error("界".repeat(MAX_WASM_ERROR_BYTES));
    assert!(error.to_string().len() <= MAX_WASM_ERROR_BYTES);
    assert!(error.to_string().ends_with("..."));
}

#[test]
fn short_runtime_errors_are_kept_whole() {
    assert_eq!(wasm_error("trap".to_owned()).to_string(), "trap");
    let exact = "x".repeat(MAX_WASM_ERROR_BYTES);
    assert_eq!(wasm_error(exact.clone()).to_string(), exact);
    let longer = "x".repeat(MAX_WASM_ERROR_BYTES + 1);
    let shown = wasm_error(longer).to_string();
    assert_eq!(shown.len(), MAX_WASM_ERROR_BYTES);
    assert_eq!(&shown[MAX_WASM_ERROR_BYTES - 3..], "...");
}

#[test]
fn rejects_foreign_extension_namespaces_and_unsafe_event_names() {
    let mut update = TelemetryUpdate::default();
    update.extensions.push(Namespaced {
        namespace: "another-plugin".to_owned(),
        value: "null".to_owned(),
    });
    let output = PluginDecodeOutput {
        schema_version: GAME_PLUGIN_ABI_VERSION,
        updates: vec![update],
        events: Vec::new(),
    };
    assert!(validate_output_semantics(&output, "example-game").is_err());

    let output = PluginDecodeOutput {
        schema_version: GAME_PLUGIN_ABI_VERSION,
        updates: Vec::new(),
        events: vec![TelemetryEvent {
            name: "Unsafe Event".to_owned(),
            occurred_at: MonotonicTimestamp::from_micros(0),
            data: serde_json::Value::Null,
        }],
    };
    assert!(validate_output_semantics(&output, "example-game").is_err());
}

#[test]
fn own_namespace_and_dotted_event_names_are_accepted() {
    let mut update = TelemetryUpdate::default();
    update.extensions.push(Namespaced {
        namespace: "example-game".to_owned(),
        value: "null".to_owned(),
    });
    let output = PluginDecodeOutput {
        schema_version: GAME_PLUGIN_ABI_VERSION,
        updates: vec![update],
        events: vec![TelemetryEvent {
            name: "lap.completed".to_owned(),
            occurred_at: MonotonicTimestamp::from_micros(0),
            data: serde_json::Value::Null,
        }],
    };
    assert!(validate_output_semantics(&output, "example-game").is_ok());
    assert!(valid_event_name("lap.completed"));
    assert!(!valid_event_name(""));
    assert!(!valid_event_name("Lap"));
}

#[test]
fn guest_lengths_and_results_are_checked() {
    assert_eq!(non_negative(12, "input length").ok(), Some(12));
    assert!(non_negative(-1, "input length").is_err());
    assert_eq!(decode_result(0).err().map(|e| e.to_string()), Some("datagram was not recognized".to_owned()));
    assert_eq!(decode_result(120).ok(), Some(120));
    assert!(decode_result(-1).is_err());
    assert!(decode_result(262_145).is_err());
}

#[test]
fn discovery_decisions_respect_limits_and_reserved_ids() {
    let manifest = wasm_manifest("a".repeat(64));
    let reserved = vec!["f1-24".to_owned()];
    assert!(matches!(admit_plugin(16, &reserved, "example-game", Ok(&manifest)), LoadDecision::Stop(_)));
    assert_eq!(admit_plugin(0, &reserved, "example-game", Ok(&manifest)), LoadDecision::Install);
    assert!(matches!(admit_plugin(0, &reserved, "other-name", Ok(&manifest)), LoadDecision::Skip(_)));
    assert_eq!(
        admit_plugin(16, &reserved, "example-game", Ok(&manifest)),
        LoadDecision::Stop(PluginLoadIssue {
            plugin_id: None,
            message: "installed plugin limit of 16 was reached".to_owned(),
        })
    );
    assert_eq!(
        admit_plugin(0, &reserved, "other-name", Ok(&manifest)),
        LoadDecision::Skip(PluginLoadIssue {
            plugin_id: Some("other-name".to_owned()),
            message: "plugin directory does not match manifest id".to_owned(),
        })
    );
    assert_eq!(
        admit_plugin(0, &vec!["example-game".to_owned()], "example-game", Ok(&manifest)),
        LoadDecision::Skip(PluginLoadIssue {
            plugin_id: Some("example-game".to_owned()),
            message: "installed plugin conflicts with a built-in id".to_owned(),
        })
    );
    let reserved_own = vec!["example-game".to_owned()];
    assert!(matches!(admit_plugin(0, &reserved_own, "example-game", Ok(&manifest)), LoadDecision::Skip(_)));
    let failed = admit_plugin(0, &reserved, "../bad", Err(PluginPackageError::new("broken".to_owned())));
    match failed {
        LoadDecision::Skip(issue) => {
            assert_eq!(issue.plugin_id, None);
            assert_eq!(issue.message, "broken");
        }
        other => panic!("unexpected {other:?}"),
    }
}

fn sha256_hex(bytes: &[u8]) -> String {
    format!("{:x}", sha2::Sha256::digest(bytes))
}
