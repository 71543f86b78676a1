use opencarpanel::config::json::{validate_json_value, JsonMember, JsonNumber, JsonValue};
use opencarpanel::config::layout::{LayoutDocument, Placements, WidgetInstance};
use opencarpanel::config::model::{
    BreakpointName, ComponentType, GridPlacement, HostSettings, InstanceId, LayoutId,
    ThemeSettings, ValidationError,
};

fn text(value: &str) -> JsonValue {
    JsonValue::String(value.to_owned())
}

fn object(key: &str, value: JsonValue) -> JsonValue {
    JsonValue::Object(vec![JsonMember { key: key.to_owned(), value }])
}

fn widget(number: usize) -> Result<WidgetInstance, ValidationError> {
    let mut placements = Placements::new();
    placements.insert(
        BreakpointName::PhoneLandscape,
        GridPlacement {
            x: 0,
            y: 0,
            width: 6,
            height: 4,
        },
    );
    Ok(WidgetInstance {
        instance_id: InstanceId::new(format!("widget-{number}"))?,
        component_type: ComponentType::new("core.tachometer".to_owned())?,
        placements,
        settings: object("accent", text("#3ee6a8")),
    })
}

#[test]
fn identifiers_reject_path_traversal_but_component_types_allow_dots() {
    assert!(LayoutId::new("../escape".to_owned()).is_err());
    assert!(InstanceId::new("widget--one".to_owned()).is_err());
    assert!(ComponentType::new("core.tachometer".to_owned()).is_ok());
    assert!(ComponentType::new("core..tachometer".to_owned()).is_err());
}

#[test]
fn widget_count_grid_and_settings_depth_are_bounded() {
    let mut layout =
        LayoutDocument::empty(LayoutId::new("bounded".to_owned()).unwrap(), "Bounded".to_owned()).unwrap();
    let widgets = (0..65).map(widget).collect::<Result<Vec<_>, _>>().unwrap();
    layout.set_widgets(widgets);
    assert!(matches!(
        layout.validate(),
        Err(ValidationError::TooManyWidgets { .. })
    ));

    let mut invalid_grid = widget(1).unwrap();
    invalid_grid.placements.insert(
        BreakpointName::PhoneLandscape,
        GridPlacement {
            x: 23,
            y: 0,
            width: 2,
            height: 1,
        },
    );
    layout.set_widgets(vec![invalid_grid]);
    assert_eq!(
        layout.validate(),
        Err(ValidationError::InvalidGridPlacement)
    );

    let mut nested = JsonValue::Bool(true);
    for _ in 0..10 {
        nested = object("next", nested);
    }
    let mut deep = widget(2).unwrap();
    deep.settings = nested;
    layout.set_widgets(vec![deep]);
    assert!(matches!(
        layout.validate(),
        Err(ValidationError::SettingsTooDeep { .. })
    ));
}

#[test]
fn host_settings_accept_only_publication_presets() {
    let mut settings = HostSettings::default();
    assert!(settings.validate().is_ok());
    settings.snapshot_hz = 59;
    assert_eq!(
        settings.validate(),
        Err(ValidationError::UnsupportedSnapshotRate(59))
    );

    let theme = ThemeSettings::default();
    assert!(!theme.background.is_empty());
}

#[test]
fn theme_tokens_reject_executable_css_strings() {
    let mut layout = LayoutDocument::empty(
        LayoutId::new("theme-safe".to_owned()).unwrap(),
        "Safe theme".to_owned(),
    )
    .unwrap();
    let theme = ThemeSettings {
        accent: "url(javascript:alert(1))".into(),
        ..ThemeSettings::default()
    };
    layout.set_theme(theme);

    assert!(matches!(
        layout.validate(),
        Err(ValidationError::InvalidColor { .. })
    ));
}

#[test]
fn an_empty_layout_starts_at_revision_zero_with_the_default_theme() {
    let layout =
        LayoutDocument::empty(LayoutId::new("main".to_owned()).unwrap(), "Main".to_owned()).unwrap();
    assert_eq!(layout.schema_version(), 1);
    assert_eq!(layout.revision(), 0);
    assert_eq!(layout.id().as_str(), "main");
    assert_eq!(layout.name(), "Main");
    assert!(layout.widgets().is_empty());
    assert_eq!(layout.theme(), &ThemeSettings::default());
    assert_eq!(
        LayoutDocument::empty(LayoutId::new("main".to_owned()).unwrap(), String::new()),
        Err(ValidationError::EmptyString { field: "layout name" })
    );
}

#[test]
fn duplicate_widget_instances_are_named() {
    let mut layout =
        LayoutDocument::empty(LayoutId::new("dupes".to_owned()).unwrap(), "Dupes".to_owned()).unwrap();
    layout.set_widgets(vec![widget(1).unwrap(), widget(2).unwrap(), widget(1).unwrap()]);
    let error = layout.validate().expect_err("duplicate");
    assert_eq!(error, ValidationError::DuplicateWidgetInstance("widget-1".to_owned()));
    assert_eq!(error.to_string(), "duplicate widget instance \"widget-1\"");
}

#[test]
fn settings_values_are_bounded_in_size_and_keys() {
    let long = JsonValue::String("x".repeat(257));
    assert_eq!(
        validate_json_value(&long, 0),
        Err(ValidationError::StringTooLong { field: "widget setting", actual: 257, maximum: 256 })
    );
    let empty_key = object("", JsonValue::Null);
    assert_eq!(
        validate_json_value(&empty_key, 0),
        Err(ValidationError::EmptyString { field: "widget setting key" })
    );
    let wide = JsonValue::Array((0..257).map(|n| JsonValue::Number(JsonNumber::PosInt(n))).collect());
    assert_eq!(
        validate_json_value(&wide, 0),
        Err(ValidationError::TooManySettingsEntries { actual: 257, maximum: 256 })
    );
    assert_eq!(validate_json_value(&JsonValue::Null, 8), Ok(()));
    assert_eq!(
        validate_json_value(&JsonValue::Null, 9),
        Err(ValidationError::SettingsTooDeep { actual: 9, maximum: 8 })
    );
    let mut eight_deep = JsonValue::Bool(false);
    for _ in 0..8 {
        eight_deep = JsonValue::Array(vec![eight_deep]);
    }
    assert_eq!(validate_json_value(&eight_deep, 0), Ok(()));
    let nine_deep = JsonValue::Array(vec![eight_deep]);
    assert_eq!(
        validate_json_value(&nine_deep, 0),
        Err(ValidationError::SettingsTooDeep { actual: 9, maximum: 8 })
    );
}

#[test]
fn placements_keep_one_value_per_breakpoint_in_order() {
    let mut placements = Placements::new();
    let small = GridPlacement { x: 0, y: 0, width: 1, height: 1 };
    let large = GridPlacement { x: 0, y: 0, width: 4, height: 4 };
    assert_eq!(placements.insert(BreakpointName::Desktop, small), None);
    assert_eq!(placements.insert(BreakpointName::PhonePortrait, large), None);
    assert_eq!(placements.insert(BreakpointName::Desktop, large), Some(small));
    assert_eq!(placements.get(BreakpointName::Tablet), None);
    assert_eq!(placements.values(), vec![large, large]);
}

#[test]
fn component_type_segments_refuse_doubled_hyphens() {
    assert!(ComponentType::new("core.tacho--meter".to_owned()).is_err());
    assert!(ComponentType::new("core.tacho-meter".to_owned()).is_ok());
}
