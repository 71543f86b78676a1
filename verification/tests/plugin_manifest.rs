use opencarpanel::plugin::manifest::{
    GamePluginManifest, GamePluginPackage, PluginGameFamily, PluginIngress, PluginIngressKind,
    PluginLayoutPreset, PluginPresentation, PluginProtocol, PluginRuntime, PluginSetup,
    PluginSource, PluginStatusMode, PluginTheme, GAME_PLUGIN_ABI_VERSION,
    GAME_PLUGIN_MANIFEST_VERSION, GAME_PLUGIN_PACKAGE_VERSION,
};
use opencarpanel::telemetry::model::TelemetryField;

fn manifest() -> GamePluginManifest {
    GamePluginManifest {
        schema_version: GAME_PLUGIN_MANIFEST_VERSION,
        id: "example-game".to_owned(),
        name: "Example Game".to_owned(),
        version: "1.0.0".to_owned(),
        publisher: "Example Publisher".to_owned(),
        license: "Apache-2.0".to_owned(),
        description: "Example UDP telemetry decoder.".to_owned(),
        runtime: PluginRuntime::Wasm {
            abi_version: GAME_PLUGIN_ABI_VERSION,
            module: "decoder.wasm".to_owned(),
            sha256: "a".repeat(64),
        },
        protocol: PluginProtocol {
            name: "Example UDP".to_owned(),
            version: "1".to_owned(),
        },
        ingress: PluginIngress {
            kind: PluginIngressKind::SharedUdp,
            default_port: 20_777,
            max_datagram_bytes: 1_024,
        },
        capabilities: vec![TelemetryField::VehicleSpeed],
        presentation: PluginPresentation {
            short_name: "EXAMPLE".to_owned(),
            detail: "UDP / V1".to_owned(),
            family: PluginGameFamily::Generic,
            status_mode: PluginStatusMode::Generic,
            layout_preset: PluginLayoutPreset::Generic,
            theme: PluginTheme {
                background: "#07090c".to_owned(),
                foreground: "#f2f0e9".to_owned(),
                accent: "#d9ff43".to_owned(),
                warning: "#ff4b3e".to_owned(),
            },
            fallback_rpm_max: 8_000,
            widgets: vec!["core.speed".to_owned()],
        },
        setup: PluginSetup::Udp {
            steps: vec!["Enable UDP telemetry.".to_owned()],
        },
    }
}

#[test]
fn validates_external_manifest_and_public_metadata() {
    let manifest = manifest();
    assert!(manifest.validate().is_ok());
    let metadata = manifest.metadata(PluginSource::Installed);
    assert_eq!(metadata.id, "example-game");
    assert_eq!(metadata.source, PluginSource::Installed);
}

#[test]
fn rejects_paths_duplicates_and_unsupported_abi() {
    let mut invalid = manifest();
    invalid.runtime = PluginRuntime::Wasm {
        abi_version: GAME_PLUGIN_ABI_VERSION + 1,
        module: "../decoder.wasm".to_owned(),
        sha256: "A".repeat(64),
    };
    invalid.capabilities.push(TelemetryField::VehicleSpeed);
    assert!(invalid.validate().is_err());
}

#[test]
fn external_plugins_cannot_request_the_native_scs_installer() {
    let mut invalid = manifest();
    invalid.setup = PluginSetup::ScsSdk {
        steam_app_id: 227_300,
        directory_name: "Euro Truck Simulator 2".to_owned(),
    };
    assert!(invalid.validate().is_err());
}

#[test]
fn installable_package_cannot_claim_a_builtin_entrypoint() {
    let mut manifest = manifest();
    manifest.runtime = PluginRuntime::Builtin {
        entrypoint: "example-game".to_owned(),
    };
    let package = GamePluginPackage {
        package_version: GAME_PLUGIN_PACKAGE_VERSION,
        manifest,
        module_base64: String::new(),
    };
    assert!(package.validate().is_err());
}

#[test]
fn each_manifest_rule_names_its_field() {
    let mut duplicate = manifest();
    duplicate.capabilities.push(TelemetryField::VehicleSpeed);
    let error = duplicate.validate().expect_err("duplicate capability");
    assert!(error.message().contains("capabilit"), "{}", error.message());

    let mut bad_version = manifest();
    bad_version.version = "1.0".to_owned();
    assert!(bad_version.validate().is_err());

    let mut bad_color = manifest();
    bad_color.presentation.theme.accent = "red".to_owned();
    assert!(bad_color.validate().is_err());

    let mut unsafe_module = manifest();
    unsafe_module.runtime = PluginRuntime::Wasm {
        abi_version: GAME_PLUGIN_ABI_VERSION,
        module: "nested/decoder.wasm".to_owned(),
        sha256: "a".repeat(64),
    };
    assert!(unsafe_module.validate().is_err());
}

#[test]
fn package_versions_other_than_one_are_refused() {
    let package = GamePluginPackage {
        package_version: 2,
        manifest: manifest(),
        module_base64: String::new(),
    };
    let error = package.validate().expect_err("version 2");
    assert_eq!(error.message(), "package version 2 is unsupported; expected 1");
}
