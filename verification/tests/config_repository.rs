use opencarpanel::config::json::{JsonMember, JsonNumber, JsonValue};
use opencarpanel::config::layout::LayoutDocument;
use opencarpanel::config::model::{LayoutId, ThemeSettings, ValidationError};
use opencarpanel::config::repository::{
    accept_layout, after_primary_read, check_layout_len, check_settings_len, join_path,
    migrate_layout_json, migrate_parsed_layout, migrate_v0_to_v1, prune_count, render_decimal_padded20, schema_version_of,
    ConfigError, LayoutRepository, PrimaryRead, SettingsRepository,
};

fn document() -> LayoutDocument {
    LayoutDocument::empty(
        LayoutId::new("default".to_owned()).unwrap(),
        "Default dashboard".to_owned(),
    )
    .unwrap()
}

fn member(key: &str, value: JsonValue) -> JsonMember {
    JsonMember { key: key.to_owned(), value }
}

fn member_of<'a>(value: &'a JsonValue, key: &str) -> Option<&'a JsonValue> {
    match value {
        JsonValue::Object(members) => members.iter().find(|m| m.key == key).map(|m| &m.value),
        _ => None,
    }
}

fn legacy_fixture() -> JsonValue {
    JsonValue::Object(vec![
        member("id", JsonValue::String("legacy".to_owned())),
        member("name", JsonValue::String("Legacy".to_owned())),
        member("widgets", JsonValue::Array(Vec::new())),
    ])
}

#[test]
fn saving_and_loading_preserves_schema_and_increments_revision() {
    let repository = LayoutRepository::new("/data".to_owned());
    let saved = repository.next_revision(document(), 0, 0).expect("saves");
    assert_eq!(saved.schema_version(), 1);
    assert_eq!(saved.revision(), 1);
    assert_eq!(saved.name(), "Default dashboard");
}

#[test]
fn stale_revision_returns_a_conflict() {
    let repository = LayoutRepository::new("/data".to_owned());
    let saved = repository.next_revision(document(), 0, 0).expect("saves");
    let error = repository.next_revision(saved, 0, 1).err().expect("stale save unexpectedly succeeded");
    assert!(matches!(error, ConfigError::Conflict { current_revision: 1 }));
}

#[test]
fn exhausted_revisions_and_invalid_documents_are_refused() {
    let repository = LayoutRepository::new("/data".to_owned());
    assert_eq!(
        repository.next_revision(document(), u64::MAX, u64::MAX).err(),
        Some(ConfigError::RevisionExhausted)
    );
    let mut invalid = document();
    invalid.set_name("x".repeat(300));
    assert_eq!(
        repository.next_revision(invalid, 0, 0).err(),
        Some(ConfigError::Validation(ValidationError::StringTooLong {
            field: "layout name",
            actual: 300,
            maximum: 256,
        }))
    );
}

#[test]
fn v0_layout_migrates_deterministically_to_v1() {
    let legacy = br#"{
        "id": "legacy",
        "name": "Legacy",
        "widgets": []
    }"#;
    let first = migrate_layout_json(legacy).expect("migrates");
    let second = migrate_layout_json(legacy).expect("migrates");
    assert_eq!(migrate_parsed_layout(64, Ok(legacy_fixture())).expect("migrates"), first);
    assert_eq!(first, second);
    assert_eq!(member_of(&first, "schemaVersion"), Some(&JsonValue::Number(JsonNumber::PosInt(1))));
    assert_eq!(member_of(&first, "revision"), Some(&JsonValue::Number(JsonNumber::PosInt(0))));
    assert_eq!(member_of(&first, "id"), Some(&JsonValue::String("legacy".to_owned())));
    assert_eq!(member_of(&first, "widgets"), Some(&JsonValue::Array(Vec::new())));
    let theme = member_of(&first, "theme").expect("default theme");
    assert_eq!(member_of(theme, "accent"), Some(&JsonValue::String("#3ee6a8".to_owned())));
    assert_eq!(schema_version_of(&first), Ok(1));

    let typed = LayoutDocument::from_parts(
        1,
        0,
        LayoutId::new("legacy".to_owned()).unwrap(),
        "Legacy".to_owned(),
        Vec::new(),
        ThemeSettings::default(),
    );
    let accepted = accept_layout(Ok(typed)).expect("valid");
    assert_eq!(accepted.schema_version(), 1);
    assert_eq!(accepted.revision(), 0);
    assert_eq!(accepted.id().as_str(), "legacy");
    assert!(accepted.widgets().is_empty());
}

#[test]
fn migration_refuses_oversized_malformed_and_future_documents() {
    assert_eq!(
        migrate_parsed_layout(262_145, Ok(legacy_fixture())),
        Err(ConfigError::DocumentTooLarge { actual: 262_145, maximum: 262_144 })
    );
    assert_eq!(
        migrate_parsed_layout(10, Err("expected value at line 1 column 1".to_owned())),
        Err(ConfigError::Json("expected value at line 1 column 1".to_owned()))
    );
    let future = JsonValue::Object(vec![member("schemaVersion", JsonValue::Number(JsonNumber::PosInt(2)))]);
    assert_eq!(migrate_parsed_layout(30, Ok(future)), Err(ConfigError::UnsupportedSchema { actual: 2 }));
    let negative = JsonValue::Object(vec![member("schemaVersion", JsonValue::Number(JsonNumber::NegInt(-1)))]);
    assert_eq!(migrate_parsed_layout(30, Ok(negative)), Err(ConfigError::InvalidSchemaVersion));
    let huge = JsonValue::Object(vec![member("schemaVersion", JsonValue::Number(JsonNumber::PosInt(70_000)))]);
    assert_eq!(migrate_parsed_layout(30, Ok(huge)), Err(ConfigError::InvalidSchemaVersion));
    assert_eq!(
        migrate_parsed_layout(4, Ok(JsonValue::Array(Vec::new()))),
        Err(ConfigError::Migration("v0 layout must be an object"))
    );
    assert_eq!(
        migrate_layout_json(&vec![b' '; 262_145]),
        Err(ConfigError::DocumentTooLarge { actual: 262_145, maximum: 262_144 })
    );
    assert!(matches!(migrate_layout_json(b"{not json"), Err(ConfigError::Json(_))));
    assert_eq!(
        migrate_layout_json(br#"{"schemaVersion": 2}"#),
        Err(ConfigError::UnsupportedSchema { actual: 2 })
    );
    assert_eq!(migrate_layout_json(br#"{"schemaVersion": -1}"#), Err(ConfigError::InvalidSchemaVersion));
    assert_eq!(migrate_layout_json(b"[]"), Err(ConfigError::Migration("v0 layout must be an object")));
    assert_eq!(
        migrate_v0_to_v1(JsonValue::Null),
        Err(ConfigError::Migration("v0 layout must be an object"))
    );
}

#[test]
fn migration_keeps_existing_widgets_and_theme() {
    let custom_theme = JsonValue::Object(vec![member("accent", JsonValue::String("#ffffff".to_owned()))]);
    let legacy = JsonValue::Object(vec![
        member("revision", JsonValue::Number(JsonNumber::PosInt(9))),
        member("theme", custom_theme),
    ]);
    let migrated = migrate_v0_to_v1(legacy).expect("object");
    assert_eq!(member_of(&migrated, "revision"), Some(&JsonValue::Number(JsonNumber::PosInt(0))));
    let theme = member_of(&migrated, "theme").expect("kept");
    assert_eq!(member_of(theme, "accent"), Some(&JsonValue::String("#ffffff".to_owned())));
    assert_eq!(member_of(&migrated, "widgets"), Some(&JsonValue::Array(Vec::new())));
}

#[test]
fn repository_paths_follow_the_on_disk_layout() {
    let repository = LayoutRepository::new("/data".to_owned());
    let id = LayoutId::new("default".to_owned()).unwrap();
    assert_eq!(repository.layout_path(&id), "/data/layouts/default.json");
    assert_eq!(repository.backup_directory(&id), "/data/backups/default");
    assert_eq!(
        repository.backup_path(&id, 7),
        "/data/backups/default/revision-00000000000000000007.json"
    );
    assert_eq!(repository.backup_limit(), 3);
    let settings = SettingsRepository::new("/data/".to_owned());
    assert_eq!(settings.settings_path(), "/data/settings.json");
    assert_eq!(settings.backup_directory(), "/data/backups/settings");
    assert_eq!(join_path("", "x"), "x");
    assert_eq!(render_decimal_padded20(u64::MAX), "18446744073709551615");
}

#[test]
fn backup_history_is_bounded() {
    assert_eq!(prune_count(5, 3), 2);
    assert_eq!(prune_count(3, 3), 0);
    assert_eq!(prune_count(0, 3), 0);
}

#[test]
fn content_failures_start_recovery_and_others_are_reported() {
    let read: Result<u8, ConfigError> = Err(ConfigError::Json("bad".to_owned()));
    assert_eq!(after_primary_read(read), PrimaryRead::Recover);
    let io: Result<u8, ConfigError> = Err(ConfigError::Io { path: "/x".to_owned(), message: "denied".to_owned() });
    assert!(matches!(after_primary_read(io), PrimaryRead::Fail(ConfigError::Io { .. })));
    assert_eq!(after_primary_read(Ok::<u8, ConfigError>(4)), PrimaryRead::Loaded(4));
}

#[test]
fn recovery_uses_a_backup_or_fails_for_layouts_and_resets_settings() {
    let repository = LayoutRepository::new("/data".to_owned());
    let id = LayoutId::new("default".to_owned()).unwrap();
    let loaded = repository.recovered(&id, Some(document()), "/data/quarantine/x".to_owned()).expect("backup");
    assert!(loaded.recovered);
    assert_eq!(loaded.quarantined_path.as_deref(), Some("/data/quarantine/x"));
    let failed = repository.recovered(&id, None, "/q".to_owned()).err().expect("no backup");
    assert_eq!(failed.to_string(), "no valid backup remains for layout \"default\"");

    let settings = SettingsRepository::new("/data".to_owned());
    let reset = settings.recovered(None, 7u8, "/q".to_owned());
    assert_eq!(reset.settings, 7);
    assert!(reset.reset_to_defaults && !reset.recovered);
    let restored = settings.recovered(Some(3u8), 7u8, "/q".to_owned());
    assert_eq!(restored.settings, 3);
    assert!(restored.recovered && !restored.reset_to_defaults);
    let fresh = settings.fresh(1u8);
    assert!(!fresh.recovered && !fresh.reset_to_defaults && fresh.quarantined_path.is_none());
}

#[test]
fn configuration_errors_render_their_cause() {
    assert_eq!(
        ConfigError::Conflict { current_revision: 4 }.to_string(),
        "configuration revision conflict; current revision is 4"
    );
    assert_eq!(
        ConfigError::InvalidSchemaVersion.to_string(),
        "configuration schemaVersion must be an unsigned 16-bit integer"
    );
    assert_eq!(check_layout_len(262_144), Ok(()));
    assert_eq!(
        check_settings_len(65_537),
        Err(ConfigError::DocumentTooLarge { actual: 65_537, maximum: 65_536 })
    );
    assert!(ConfigError::Migration("x").is_recoverable_content_error());
    assert!(!ConfigError::RevisionExhausted.is_recoverable_content_error());
}
