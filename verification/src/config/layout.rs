//! Versioned responsive dashboard documents and their validation.
use vstd::prelude::*;
use vstd::string::StringExecFns;

use super::json::{settings_value_check, validate_json_value, JsonValue};
use super::model::{
    hex_color, placement_fits, string_check, utf8, valid_component_type, valid_identifier,
    validate_color, validate_component_type, validate_identifier, validate_placement,
    validate_string, BreakpointName, ComponentType, GridPlacement, InstanceId, LayoutId,
    ThemeSettings, ValidationError, CONFIG_SCHEMA_VERSION, MAX_WIDGETS,
};

verus! {

/// Breakpoint-specific geometry of one widget: at most one placement per
/// breakpoint, visited in breakpoint order.
#[derive(Debug, Clone, Copy, PartialEq, Eq, Structural, Default)]
pub struct Placements {
    /// Narrow portrait phone placement.
    pub phone_portrait: Option<GridPlacement>,
    /// Wide phone placement.
    pub phone_landscape: Option<GridPlacement>,
    /// Tablet placement.
    pub tablet: Option<GridPlacement>,
    /// Desktop preview placement.
    pub desktop: Option<GridPlacement>,
}

/// The placement recorded for `b`.
pub open spec fn placement_at(p: Placements, b: BreakpointName) -> Option<GridPlacement> {
    match b {
        BreakpointName::PhonePortrait => p.phone_portrait,
        BreakpointName::PhoneLandscape => p.phone_landscape,
        BreakpointName::Tablet => p.tablet,
        BreakpointName::Desktop => p.desktop,
    }
}

/// The recorded placements, in breakpoint order.
pub open spec fn placement_values(p: Placements) -> Seq<GridPlacement> {
    let a = match p.phone_portrait { Some(g) => seq![g], None => Seq::empty() };
    let b = match p.phone_landscape { Some(g) => seq![g], None => Seq::empty() };
    let c = match p.tablet { Some(g) => seq![g], None => Seq::empty() };
    let d = match p.desktop { Some(g) => seq![g], None => Seq::empty() };
    a + b + c + d
}

impl Placements {
    /// No placement at any breakpoint.
    pub fn new() -> (p: Placements)
        ensures
            forall|b: BreakpointName| placement_at(p, b) is None,
    {
        Placements { phone_portrait: None, phone_landscape: None, tablet: None, desktop: None }
    }

    /// The placement recorded for `breakpoint`.
    pub fn get(&self, breakpoint: BreakpointName) -> (g: Option<GridPlacement>)
        ensures
            g == placement_at(*self, breakpoint),
    {
        match breakpoint {
            BreakpointName::PhonePortrait => self.phone_portrait,
            BreakpointName::PhoneLandscape => self.phone_landscape,
            BreakpointName::Tablet => self.tablet,
            BreakpointName::Desktop => self.desktop,
        }
    }

    /// Records `placement` for `breakpoint`, returning the one it replaces.
    pub fn insert(&mut self, breakpoint: BreakpointName, placement: GridPlacement) -> (previous: Option<GridPlacement>)
        ensures
            previous == placement_at(*old(self), breakpoint),
            placement_at(*final(self), breakpoint) == Some(placement),
            forall|b: BreakpointName| b != breakpoint ==> placement_at(*final(self), b) == placement_at(*old(self), b),
    {
        let previous = self.get(breakpoint);
        match breakpoint {
            BreakpointName::PhonePortrait => self.phone_portrait = Some(placement),
            BreakpointName::PhoneLandscape => self.phone_landscape = Some(placement),
            BreakpointName::Tablet => self.tablet = Some(placement),
            BreakpointName::Desktop => self.desktop = Some(placement),
        }
        previous
    }

    /// The recorded placements in breakpoint order.
    pub fn values(&self) -> (v: Vec<GridPlacement>)
        ensures
            v@ == placement_values(*self),
    {
        let mut v: Vec<GridPlacement> = Vec::new();
        match self.phone_portrait {
            Some(g) => v.push(g),
            None => {},
        }
        match self.phone_landscape {
            Some(g) => v.push(g),
            None => {},
        }
        match self.tablet {
            Some(g) => v.push(g),
            None => {},
        }
        match self.desktop {
            Some(g) => v.push(g),
            None => {},
        }
        proof {
            assert(v@ =~= placement_values(*self));
        }
        v
    }
}

/// One built-in widget instance in a layout.
#[derive(Debug, PartialEq)]
pub struct WidgetInstance {
    /// Stable instance id used by editor operations.
    pub instance_id: InstanceId,
    /// Registered built-in component type, such as `core.tachometer`.
    pub component_type: ComponentType,
    /// Breakpoint-specific geometry.
    pub placements: Placements,
    /// Component settings validated again by the component-specific schema.
    pub settings: JsonValue,
}

/// Why the widget at index `i` of a layout is refused.
#[derive(Debug, Clone, Copy, PartialEq, Eq, Structural)]
pub enum WidgetFault {
    /// Its instance id is not a safe identifier.
    InstanceId,
    /// Its component type is not a safe dotted identifier.
    ComponentType,
    /// An earlier widget has the same instance id.
    Duplicate,
    /// One of its placements leaves the grid.
    Placement,
    /// Its settings break a bound.
    Settings,
}

/// Whether some widget before index `i` has the same instance id.
pub open spec fn repeats_earlier_id(ws: Seq<WidgetInstance>, i: int) -> bool {
    exists|j: int| 0 <= j < i && (#[trigger] ws[j]).instance_id.text() == ws[i].instance_id.text()
}

/// Whether every placement fits the grid.
pub open spec fn placements_fit(p: Placements) -> bool {
    forall|k: int| 0 <= k < placement_values(p).len() ==> placement_fits(#[trigger] placement_values(p)[k])
}

/// The first check the widget at index `i` fails: its instance id, its
/// component type, uniqueness of its id, its placements, then its settings.
pub open spec fn widget_fault(ws: Seq<WidgetInstance>, i: int) -> Option<WidgetFault> {
    let w = ws[i];
    if !valid_identifier(utf8(w.instance_id.text())) {
        Some(WidgetFault::InstanceId)
    } else if !valid_component_type(utf8(w.component_type.text())) {
        Some(WidgetFault::ComponentType)
    } else if repeats_earlier_id(ws, i) {
        Some(WidgetFault::Duplicate)
    } else if !placements_fit(w.placements) {
        Some(WidgetFault::Placement)
    } else if settings_value_check(w.settings, 0) is Err {
        Some(WidgetFault::Settings)
    } else {
        None
    }
}

/// The first refused widget from index `from` on, with why.
pub open spec fn first_widget_fault(ws: Seq<WidgetInstance>, from: int) -> Option<(int, WidgetFault)>
    decreases ws.len() - from,
{
    if from < 0 || from >= ws.len() {
        None
    } else {
        match widget_fault(ws, from) {
            Some(f) => Some((from, f)),
            None => first_widget_fault(ws, from + 1),
        }
    }
}

/// Whether `e` is the error reported for the widget `w` refused for `f`.
pub open spec fn widget_error(w: WidgetInstance, f: WidgetFault, e: ValidationError) -> bool {
    match f {
        WidgetFault::InstanceId => e matches ValidationError::InvalidIdentifier { kind, value }
            && kind@ == "widget instance"@ && value@ == w.instance_id.text(),
        WidgetFault::ComponentType => e matches ValidationError::InvalidIdentifier { kind, value }
            && kind@ == "component type"@ && value@ == w.component_type.text(),
        WidgetFault::Duplicate => e matches ValidationError::DuplicateWidgetInstance(id) && id@ == w.instance_id.text(),
        WidgetFault::Placement => e == ValidationError::InvalidGridPlacement,
        WidgetFault::Settings => settings_value_check(w.settings, 0) == Err::<(), ValidationError>(e),
    }
}

/// Whether `e` is the error reported for the theme color `field` holding
/// `value`, or the color is valid when `e` is absent.
pub open spec fn color_verdict(field: &'static str, value: Seq<char>, r: Result<(), ValidationError>) -> bool {
    match string_check(field, utf8(value), false) {
        Err(e) => r == Err::<(), ValidationError>(e),
        Ok(()) => if hex_color(utf8(value)) {
            r is Ok
        } else {
            r matches Err(e) && (e matches ValidationError::InvalidColor { field: f, value: v } && f == field && v@ == value)
        },
    }
}

/// Whether the theme's four colors are valid.
pub open spec fn theme_valid(t: ThemeSettings) -> bool {
    &&& string_check("theme background", utf8(t.background@), false) is Ok && hex_color(utf8(t.background@))
    &&& string_check("theme foreground", utf8(t.foreground@), false) is Ok && hex_color(utf8(t.foreground@))
    &&& string_check("theme accent", utf8(t.accent@), false) is Ok && hex_color(utf8(t.accent@))
    &&& string_check("theme warning", utf8(t.warning@), false) is Ok && hex_color(utf8(t.warning@))
}

/// Whether `r` is what checking the theme's colors gives: background,
/// foreground, accent, then warning, the first failure reported.
pub open spec fn theme_verdict(t: ThemeSettings, r: Result<(), ValidationError>) -> bool {
    if !(string_check("theme background", utf8(t.background@), false) is Ok && hex_color(utf8(t.background@))) {
        color_verdict("theme background", t.background@, r)
    } else if !(string_check("theme foreground", utf8(t.foreground@), false) is Ok && hex_color(utf8(t.foreground@))) {
        color_verdict("theme foreground", t.foreground@, r)
    } else if !(string_check("theme accent", utf8(t.accent@), false) is Ok && hex_color(utf8(t.accent@))) {
        color_verdict("theme accent", t.accent@, r)
    } else {
        color_verdict("theme warning", t.warning@, r)
    }
}

/// Versioned responsive dashboard document.
#[derive(Debug, PartialEq)]
pub struct LayoutDocument {
    schema_version: u16,
    revision: u64,
    id: LayoutId,
    name: String,
    widgets: Vec<WidgetInstance>,
    theme: ThemeSettings,
}

/// Whether `r` is what validating `d` gives: its schema version, its id,
/// its name, its widget count, each widget in order, then its theme.
pub open spec fn layout_verdict(d: LayoutDocument, r: Result<(), ValidationError>) -> bool {
    if d.spec_schema_version() != CONFIG_SCHEMA_VERSION {
        r == Err::<(), ValidationError>(ValidationError::UnsupportedSchema { actual: d.spec_schema_version() })
    } else if !valid_identifier(utf8(d.spec_id().text())) {
        r matches Err(e) && (e matches ValidationError::InvalidIdentifier { kind, value } && kind@ == "layout"@
            && value@ == d.spec_id().text())
    } else if string_check("layout name", utf8(d.spec_name()), false) is Err {
        r == string_check("layout name", utf8(d.spec_name()), false)
    } else if d.spec_widgets().len() > MAX_WIDGETS {
        r == Err::<(), ValidationError>(
            ValidationError::TooManyWidgets { actual: d.spec_widgets().len() as usize, maximum: MAX_WIDGETS },
        )
    } else {
        match first_widget_fault(d.spec_widgets(), 0) {
            Some((i, f)) => r matches Err(e) && widget_error(d.spec_widgets()[i], f, e),
            None => theme_verdict(d.spec_theme(), r),
        }
    }
}

impl LayoutDocument {
    /// The document schema version.
    pub closed spec fn spec_schema_version(&self) -> u16 {
        self.schema_version
    }

    /// The optimistic concurrency revision.
    pub closed spec fn spec_revision(&self) -> u64 {
        self.revision
    }

    /// The stable layout id.
    pub closed spec fn spec_id(&self) -> LayoutId {
        self.id
    }

    /// The display name.
    pub closed spec fn spec_name(&self) -> Seq<char> {
        self.name@
    }

    /// The widget instances in persisted order.
    pub closed spec fn spec_widgets(&self) -> Seq<WidgetInstance> {
        self.widgets@
    }

    /// The theme token set.
    pub closed spec fn spec_theme(&self) -> ThemeSettings {
        self.theme
    }

    /// Assembles a document from its stored parts, as read from JSON; it is
    /// validated separately.
    pub fn from_parts(
        schema_version: u16,
        revision: u64,
        id: LayoutId,
        name: String,
        widgets: Vec<WidgetInstance>,
        theme: ThemeSettings,
    ) -> (d: LayoutDocument)
        ensures
            d.spec_schema_version() == schema_version,
            d.spec_revision() == revision,
            d.spec_id() == id,
            d.spec_name() == name@,
            d.spec_widgets() == widgets@,
            d.spec_theme() == theme,
    {
        LayoutDocument { schema_version, revision, id, name, widgets, theme }
    }

    /// Creates an empty current-version document at revision zero with the
    /// default theme, refusing an invalid name or identifier.
    pub fn empty(id: LayoutId, name: String) -> (r: Result<LayoutDocument, ValidationError>)
        ensures
            match r {
                Ok(d) => {
                    &&& d.spec_schema_version() == CONFIG_SCHEMA_VERSION
                    &&& d.spec_revision() == 0
                    &&& d.spec_id() == id
                    &&& d.spec_name() == name@
                    &&& d.spec_widgets().len() == 0
                    &&& d.spec_theme().background@ == "#07090f"@
                    &&& d.spec_theme().foreground@ == "#f5f7fb"@
                    &&& d.spec_theme().accent@ == "#3ee6a8"@
                    &&& d.spec_theme().warning@ == "#ff4d5e"@
                    &&& layout_verdict(d, Ok(()))
                },
                Err(e) => if !valid_identifier(utf8(id.text())) {
                    e matches ValidationError::InvalidIdentifier { kind, value } && kind@ == "layout"@ && value@ == id.text()
                } else {
                    string_check("layout name", utf8(name@), false) == Err::<(), ValidationError>(e)
                },
            },
    {
        let document = LayoutDocument {
            schema_version: CONFIG_SCHEMA_VERSION,
            revision: 0,
            id,
            name,
            widgets: Vec::new(),
            theme: ThemeSettings::default(),
        };
        proof {
            lemma_default_theme_valid(document.theme);
        }
        match document.validate() {
            Ok(()) => Ok(document),
            Err(e) => Err(e),
        }
    }

    /// Returns the document schema version.
    pub fn schema_version(&self) -> (v: u16)
        ensures
            v == self.spec_schema_version(),
    {
        self.schema_version
    }

    /// Returns the optimistic concurrency revision.
    pub fn revision(&self) -> (v: u64)
        ensures
            v == self.spec_revision(),
    {
        self.revision
    }

    /// Returns the stable layout id.
    pub fn id(&self) -> (id: &LayoutId)
        ensures
            *id == self.spec_id(),
    {
        &self.id
    }

    /// Returns the display name.
    pub fn name(&self) -> (s: &str)
        ensures
            s@ == self.spec_name(),
    {
        self.name.as_str()
    }

    /// Returns widget instances in persisted order.
    pub fn widgets(&self) -> (w: &[WidgetInstance])
        ensures
            w@ == self.spec_widgets(),
    {
        self.widgets.as_slice()
    }

    /// Returns the safe theme token set.
    pub fn theme(&self) -> (t: &ThemeSettings)
        ensures
            *t == self.spec_theme(),
    {
        &self.theme
    }

    /// Replaces the display name; validation runs again before save.
    pub fn set_name(&mut self, name: String)
        ensures
            final(self).spec_name() == name@,
            final(self).spec_schema_version() == old(self).spec_schema_version(),
            final(self).spec_revision() == old(self).spec_revision(),
            final(self).spec_id() == old(self).spec_id(),
            final(self).spec_widgets() == old(self).spec_widgets(),
            final(self).spec_theme() == old(self).spec_theme(),
    {
        self.name = name;
    }

    /// Replaces the widget list; validation runs again before save.
    pub fn set_widgets(&mut self, widgets: Vec<WidgetInstance>)
        ensures
            final(self).spec_widgets() == widgets@,
            final(self).spec_schema_version() == old(self).spec_schema_version(),
            final(self).spec_revision() == old(self).spec_revision(),
            final(self).spec_id() == old(self).spec_id(),
            final(self).spec_name() == old(self).spec_name(),
            final(self).spec_theme() == old(self).spec_theme(),
    {
        self.widgets = widgets;
    }

    /// Replaces the theme; validation runs again before save.
    pub fn set_theme(&mut self, theme: ThemeSettings)
        ensures
            final(self).spec_theme() == theme,
            final(self).spec_schema_version() == old(self).spec_schema_version(),
            final(self).spec_revision() == old(self).spec_revision(),
            final(self).spec_id() == old(self).spec_id(),
            final(self).spec_name() == old(self).spec_name(),
            final(self).spec_widgets() == old(self).spec_widgets(),
    {
        self.theme = theme;
    }

    /// Sets the revision stamped by the repository on save.
    pub(crate) fn set_revision(&mut self, revision: u64)
        ensures
            final(self).spec_revision() == revision,
            final(self).spec_schema_version() == old(self).spec_schema_version(),
            final(self).spec_id() == old(self).spec_id(),
            final(self).spec_name() == old(self).spec_name(),
            final(self).spec_widgets() == old(self).spec_widgets(),
            final(self).spec_theme() == old(self).spec_theme(),
    {
        self.revision = revision;
    }

    /// Validates all import and persistence bounds.
    pub fn validate(&self) -> (r: Result<(), ValidationError>)
        ensures
            layout_verdict(*self, r),
    {
        if self.schema_version != CONFIG_SCHEMA_VERSION {
            return Err(ValidationError::UnsupportedSchema { actual: self.schema_version });
        }
        validate_identifier("layout", self.id.as_str())?;
        validate_string("layout name", self.name.as_str(), false)?;
        if self.widgets.len() > MAX_WIDGETS {
            return Err(ValidationError::TooManyWidgets { actual: self.widgets.len(), maximum: MAX_WIDGETS });
        }
        match validate_widgets(&self.widgets) {
            Ok(()) => {},
            Err(e) => return Err(e),
        }
        validate_theme(&self.theme)
    }
}

/// Whether `text` is one of the default theme colors.
proof fn lemma_color_literal_valid(text: Seq<char>)
    requires
        text == "#07090f"@ || text == "#f5f7fb"@ || text == "#3ee6a8"@ || text == "#ff4d5e"@,
    ensures
        utf8(text).len() == 7,
        hex_color(utf8(text)),
{
    reveal_strlit("#07090f");
    reveal_strlit("#f5f7fb");
    reveal_strlit("#3ee6a8");
    reveal_strlit("#ff4d5e");
    assert(vstd::utf8::is_ascii_chars(text));
    vstd::utf8::is_ascii_chars_encode_utf8(text);
    let bytes = utf8(text);
    assert(bytes.len() == 7);
    assert(bytes[0] == 0x23);
    assert forall|i: int| 1 <= i < bytes.len() implies super::model::is_hex_digit(#[trigger] bytes[i]) by {
        assert(bytes[i] == text[i] as u8);
    }
}

/// The default theme's four colors are valid.
proof fn lemma_default_theme_valid(t: ThemeSettings)
    requires
        t.background@ == "#07090f"@,
        t.foreground@ == "#f5f7fb"@,
        t.accent@ == "#3ee6a8"@,
        t.warning@ == "#ff4d5e"@,
    ensures
        theme_valid(t),
{
    lemma_color_literal_valid(t.background@);
    lemma_color_literal_valid(t.foreground@);
    lemma_color_literal_valid(t.accent@);
    lemma_color_literal_valid(t.warning@);
}

fn validate_theme(theme: &ThemeSettings) -> (r: Result<(), ValidationError>)
    ensures
        theme_verdict(*theme, r),
{
    validate_color("theme background", theme.background.as_str())?;
    validate_color("theme foreground", theme.foreground.as_str())?;
    validate_color("theme accent", theme.accent.as_str())?;
    validate_color("theme warning", theme.warning.as_str())
}

fn validate_widget_placements(placements: &Placements) -> (r: Result<(), ValidationError>)
    ensures
        r is Ok <==> placements_fit(*placements),
        r is Err ==> r == Err::<(), ValidationError>(ValidationError::InvalidGridPlacement),
{
    let values = placements.values();
    let n = values.len();
    let mut k: usize = 0;
    while k < n
        invariant
            n == values@.len(),
            values@ == placement_values(*placements),
            k <= n,
            forall|j: int| 0 <= j < k ==> placement_fits(#[trigger] values@[j]),
        decreases n - k,
    {
        validate_placement(values[k])?;
        k = k + 1;
    }
    Ok(())
}

fn repeats_earlier(widgets: &Vec<WidgetInstance>, i: usize) -> (b: bool)
    requires
        i < widgets@.len(),
    ensures
        b == repeats_earlier_id(widgets@, i as int),
{
    let id = widgets[i].instance_id.as_str();
    let mut j: usize = 0;
    while j < i
        invariant
            i < widgets@.len(),
            j <= i,
            id@ == widgets@[i as int].instance_id.text(),
            forall|k: int| 0 <= k < j ==> (#[trigger] widgets@[k]).instance_id.text() != id@,
        decreases i - j,
    {
        let other = widgets[j].instance_id.as_str();
        if String::from_str(other) == String::from_str(id) {
            return true;
        }
        j = j + 1;
    }
    false
}

fn validate_widgets(widgets: &Vec<WidgetInstance>) -> (r: Result<(), ValidationError>)
    ensures
        match first_widget_fault(widgets@, 0) {
            Some((i, f)) => r matches Err(e) && widget_error(widgets@[i], f, e),
            None => r is Ok,
        },
{
    let n = widgets.len();
    let mut i: usize = 0;
    while i < n
        invariant
            n == widgets@.len(),
            i <= n,
            first_widget_fault(widgets@, 0) == first_widget_fault(widgets@, i as int),
        decreases n - i,
    {
        let w = &widgets[i];
        let fault = match validate_identifier("widget instance", w.instance_id.as_str()) {
            Err(e) => return Err(e),
            Ok(()) => match validate_component_type(w.component_type.as_str()) {
                Err(e) => return Err(e),
                Ok(()) => {
                    if repeats_earlier(widgets, i) {
                        return Err(ValidationError::DuplicateWidgetInstance(String::from_str(w.instance_id.as_str())));
                    }
                    match validate_widget_placements(&w.placements) {
                        Err(e) => return Err(e),
                        Ok(()) => {},
                    }
                    validate_json_value(&w.settings, 0)
                },
            },
        };
        match fault {
            Err(e) => return Err(e),
            Ok(()) => {},
        }
        i = i + 1;
    }
    Ok(())
}

} // verus!
