//! Versioned dashboard layout and Host settings, with their validation rules.

use vstd::prelude::*;
use vstd::string::StringExecFns;

use crate::text::{debug_quoted, decimal, render_debug_quoted, render_decimal};

verus! {

/// Current layout and settings schema version.
pub const CONFIG_SCHEMA_VERSION: u16 = 1;
/// Maximum serialized bytes accepted for one layout document.
pub const MAX_LAYOUT_BYTES: usize = 262144;
/// Maximum number of widgets accepted in one layout.
pub const MAX_WIDGETS: usize = 64;
/// Longest identifier, in bytes.
pub const MAX_IDENTIFIER_LEN: usize = 96;
/// Longest bounded string, in bytes.
pub const MAX_STRING_LEN: usize = 256;
/// Deepest nesting accepted in widget settings.
pub const MAX_SETTINGS_DEPTH: usize = 8;
/// Most entries accepted in one settings array or object.
pub const MAX_SETTINGS_ENTRIES: usize = 256;
/// Width of the layout grid in columns.
pub const MAX_GRID_COLUMNS: u16 = 24;
/// Height of the layout grid in rows.
pub const MAX_GRID_ROWS: u16 = 1000;

/// Whether `b` is a lowercase ASCII letter or an ASCII digit.
pub open spec fn is_lower_alnum(b: u8) -> bool {
    (0x61 <= b && b <= 0x7a) || (0x30 <= b && b <= 0x39)
}

/// Whether `b` is an ASCII letter of either case or an ASCII digit.
pub open spec fn is_ascii_alnum(b: u8) -> bool {
    is_lower_alnum(b) || (0x41 <= b && b <= 0x5a)
}

/// Whether `bytes` form a stable identifier: one to 96 lowercase letters,
/// digits and hyphens, starting and ending with a letter or digit, with no
/// two hyphens in a row.
pub open spec fn valid_identifier(bytes: Seq<u8>) -> bool {
    &&& 0 < bytes.len() <= MAX_IDENTIFIER_LEN
    &&& forall|i: int| 0 <= i < bytes.len() ==> is_lower_alnum(#[trigger] bytes[i]) || bytes[i] == 0x2d
    &&& is_ascii_alnum(bytes[0])
    &&& is_ascii_alnum(bytes.last())
    &&& forall|i: int| 0 < i < bytes.len() && #[trigger] bytes[i] == 0x2d ==> bytes[i - 1] != 0x2d
}

/// Whether `bytes` form a dotted component type of at most 96 bytes whose
/// dot-separated segments are each a safe slug: non-empty, made of
/// lowercase letters, digits and hyphens, starting and ending with a letter
/// or digit, with no two hyphens in a row.
///
/// Stated byte by byte: every byte is a letter, digit, hyphen or dot, the
/// first and last bytes are letters or digits, so are both neighbours of
/// every dot, and no hyphen follows a hyphen.
pub open spec fn valid_component_type(bytes: Seq<u8>) -> bool {
    &&& 0 < bytes.len() <= MAX_IDENTIFIER_LEN
    &&& forall|i: int| 0 <= i < bytes.len() ==> is_lower_alnum(#[trigger] bytes[i]) || bytes[i] == 0x2d || bytes[i] == 0x2e
    &&& is_lower_alnum(bytes[0])
    &&& is_lower_alnum(bytes.last())
    &&& forall|i: int| 0 < i < bytes.len() - 1 && #[trigger] bytes[i] == 0x2e ==> is_lower_alnum(bytes[i - 1]) && is_lower_alnum(bytes[i + 1])
    &&& forall|i: int| 0 < i < bytes.len() && #[trigger] bytes[i] == 0x2d ==> bytes[i - 1] != 0x2d
}

/// The UTF-8 bytes of a string.
pub open spec fn utf8(s: Seq<char>) -> Seq<u8> {
    vstd::utf8::encode_utf8(s)
}

/// Failure while validating imported or persisted configuration.
#[derive(Debug, Clone, PartialEq, Eq)]
#[non_exhaustive]
pub enum ValidationError {
    /// A persisted document has an unsupported schema version.
    UnsupportedSchema {
        /// Rejected schema version.
        actual: u16,
    },
    /// Stable id contains unsafe or ambiguous characters.
    InvalidIdentifier {
        /// Kind of identifier being validated.
        kind: &'static str,
        /// Rejected value.
        value: String,
    },
    /// A required string is empty.
    EmptyString {
        /// Field being validated.
        field: &'static str,
    },
    /// A string exceeds its configured bound.
    StringTooLong {
        /// Field being validated.
        field: &'static str,
        /// Observed UTF-8 byte length.
        actual: usize,
        /// Maximum byte length.
        maximum: usize,
    },
    /// A theme token is not a bounded hexadecimal color.
    InvalidColor {
        /// Theme field being validated.
        field: &'static str,
        /// Rejected value.
        value: String,
    },
    /// Layout contains more widget instances than allowed.
    TooManyWidgets {
        /// Observed widget count.
        actual: usize,
        /// Maximum widget count.
        maximum: usize,
    },
    /// Two widgets share the same stable instance id.
    DuplicateWidgetInstance(String),
    /// Grid position or size is outside the bounded canvas.
    InvalidGridPlacement,
    /// Settings JSON exceeds the maximum nesting depth.
    SettingsTooDeep {
        /// Observed depth.
        actual: usize,
        /// Maximum accepted depth.
        maximum: usize,
    },
    /// One settings object/array contains too many entries.
    TooManySettingsEntries {
        /// Observed entries.
        actual: usize,
        /// Maximum accepted entries.
        maximum: usize,
    },
    /// Snapshot publication rate is not an allowed preset.
    UnsupportedSnapshotRate(u16),
}

impl ValidationError {
    /// The diagnostic message of an error.
    pub open spec fn message(&self) -> Seq<char> {
        match self {
            ValidationError::UnsupportedSchema { actual } => "unsupported configuration schema version "@ + decimal(
                *actual as nat,
            ),
            ValidationError::InvalidIdentifier { kind, value } => "invalid "@ + kind@ + " identifier "@
                + debug_quoted(value@),
            ValidationError::EmptyString { field } => field@ + " cannot be empty"@,
            ValidationError::StringTooLong { field, actual, maximum } => field@ + " is "@ + decimal(
                *actual as nat,
            ) + " bytes; maximum is "@ + decimal(*maximum as nat),
            ValidationError::InvalidColor { field, value } => field@ + " must be a hexadecimal color, got "@
                + debug_quoted(value@),
            ValidationError::TooManyWidgets { actual, maximum } => "layout contains "@ + decimal(
                *actual as nat,
            ) + " widgets; maximum is "@ + decimal(*maximum as nat),
            ValidationError::DuplicateWidgetInstance(id) => "duplicate widget instance "@ + debug_quoted(id@),
            ValidationError::InvalidGridPlacement => "invalid widget grid placement"@,
            ValidationError::SettingsTooDeep { actual, maximum } => "settings nesting depth "@ + decimal(
                *actual as nat,
            ) + " exceeds maximum "@ + decimal(*maximum as nat),
            ValidationError::TooManySettingsEntries { actual, maximum } => "settings collection has "@
                + decimal(*actual as nat) + " entries; maximum is "@ + decimal(*maximum as nat),
            ValidationError::UnsupportedSnapshotRate(rate) => "snapshot rate "@ + decimal(*rate as nat)
                + " Hz is not one of 20, 30, or 60"@,
        }
    }

    /// Renders the diagnostic message.
    pub fn to_string(&self) -> (s: String)
        ensures
            s@ == self.message(),
    {
        match self {
            ValidationError::UnsupportedSchema { actual } => {
                let mut text = String::from_str("unsupported configuration schema version ");
                text.append(render_decimal(*actual as u64).as_str());
                text
            },
            ValidationError::InvalidIdentifier { kind, value } => {
                let mut text = String::from_str("invalid ");
                text.append(kind);
                text.append(" identifier ");
                text.append(render_debug_quoted(value.as_str()).as_str());
                text
            },
            ValidationError::EmptyString { field } => {
                let mut text = String::from_str(field);
                text.append(" cannot be empty");
                text
            },
            ValidationError::StringTooLong { field, actual, maximum } => {
                let mut text = String::from_str(field);
                text.append(" is ");
                text.append(render_decimal(*actual as u64).as_str());
                text.append(" bytes; maximum is ");
                text.append(render_decimal(*maximum as u64).as_str());
                text
            },
            ValidationError::InvalidColor { field, value } => {
                let mut text = String::from_str(field);
                text.append(" must be a hexadecimal color, got ");
                text.append(render_debug_quoted(value.as_str()).as_str());
                text
            },
            ValidationError::TooManyWidgets { actual, maximum } => {
                let mut text = String::from_str("layout contains ");
                text.append(render_decimal(*actual as u64).as_str());
                text.append(" widgets; maximum is ");
                text.append(render_decimal(*maximum as u64).as_str());
                text
            },
            ValidationError::DuplicateWidgetInstance(id) => {
                let mut text = String::from_str("duplicate widget instance ");
                text.append(render_debug_quoted(id.as_str()).as_str());
                text
            },
            ValidationError::InvalidGridPlacement => String::from_str("invalid widget grid placement"),
            ValidationError::SettingsTooDeep { actual, maximum } => {
                let mut text = String::from_str("settings nesting depth ");
                text.append(render_decimal(*actual as u64).as_str());
                text.append(" exceeds maximum ");
                text.append(render_decimal(*maximum as u64).as_str());
                text
            },
            ValidationError::TooManySettingsEntries { actual, maximum } => {
                let mut text = String::from_str("settings collection has ");
                text.append(render_decimal(*actual as u64).as_str());
                text.append(" entries; maximum is ");
                text.append(render_decimal(*maximum as u64).as_str());
                text
            },
            ValidationError::UnsupportedSnapshotRate(rate) => {
                let mut text = String::from_str("snapshot rate ");
                text.append(render_decimal(*rate as u64).as_str());
                text.append(" Hz is not one of 20, 30, or 60");
                text
            },
        }
    }
}

fn lower_alnum(b: u8) -> (r: bool)
    ensures
        r == is_lower_alnum(b),
{
    (b >= 0x61 && b <= 0x7a) || (b >= 0x30 && b <= 0x39)
}

fn ascii_alnum(b: u8) -> (r: bool)
    ensures
        r == is_ascii_alnum(b),
{
    lower_alnum(b) || (b >= 0x41 && b <= 0x5a)
}

/// Whether `value` is a stable identifier.
pub fn is_valid_identifier(value: &str) -> (b: bool)
    ensures
        b == valid_identifier(utf8(value@)),
{
    let bytes = value.as_bytes();
    let n = bytes.len();
    if n == 0 || n > MAX_IDENTIFIER_LEN {
        return false;
    }
    if !ascii_alnum(bytes[0]) || !ascii_alnum(bytes[n - 1]) {
        return false;
    }
    let mut i: usize = 0;
    while i < n
        invariant
            n == bytes@.len(),
            bytes@ == utf8(value@),
            i <= n,
            forall|j: int| 0 <= j < i ==> is_lower_alnum(#[trigger] bytes@[j]) || bytes@[j] == 0x2d,
            forall|j: int| 0 < j < i && #[trigger] bytes@[j] == 0x2d ==> bytes@[j - 1] != 0x2d,
        decreases n - i,
    {
        let b = bytes[i];
        if !(lower_alnum(b) || b == 0x2d) {
            return false;
        }
        if b == 0x2d && i > 0 && bytes[i - 1] == 0x2d {
            return false;
        }
        i = i + 1;
    }
    true
}

/// Checks a stable identifier of the given kind.
pub fn validate_identifier(kind: &'static str, value: &str) -> (r: Result<(), ValidationError>)
    ensures
        match r {
            Ok(()) => valid_identifier(utf8(value@)),
            Err(e) => !valid_identifier(utf8(value@)) && (e matches ValidationError::InvalidIdentifier { kind: k, value: v }
                && k == kind && v@ == value@),
        },
{
    if is_valid_identifier(value) {
        Ok(())
    } else {
        Err(ValidationError::InvalidIdentifier { kind, value: String::from_str(value) })
    }
}

/// Whether `value` is a dotted component type.
pub fn is_valid_component_type(value: &str) -> (b: bool)
    ensures
        b == valid_component_type(utf8(value@)),
{
    let bytes = value.as_bytes();
    let n = bytes.len();
    if n == 0 || n > MAX_IDENTIFIER_LEN {
        return false;
    }
    if !lower_alnum(bytes[0]) || !lower_alnum(bytes[n - 1]) {
        return false;
    }
    let mut i: usize = 0;
    while i < n
        invariant
            n == bytes@.len(),
            bytes@ == utf8(value@),
            i <= n,
            is_lower_alnum(bytes@[0]),
            is_lower_alnum(bytes@[n - 1]),
            forall|j: int| 0 <= j < i ==> is_lower_alnum(#[trigger] bytes@[j]) || bytes@[j] == 0x2d || bytes@[j] == 0x2e,
            forall|j: int| 0 < j < i && j < n - 1 && #[trigger] bytes@[j] == 0x2e ==> is_lower_alnum(bytes@[j - 1])
                && is_lower_alnum(bytes@[j + 1]),
            forall|j: int| 0 < j < i && #[trigger] bytes@[j] == 0x2d ==> bytes@[j - 1] != 0x2d,
        decreases n - i,
    {
        let b = bytes[i];
        if !(lower_alnum(b) || b == 0x2d || b == 0x2e) {
            return false;
        }
        if b == 0x2e {
            if !lower_alnum(bytes[i - 1]) || !lower_alnum(bytes[i + 1]) {
                return false;
            }
        }
        if b == 0x2d && bytes[i - 1] == 0x2d {
            return false;
        }
        i = i + 1;
    }
    true
}

/// Checks a dotted component type.
pub fn validate_component_type(value: &str) -> (r: Result<(), ValidationError>)
    ensures
        match r {
            Ok(()) => valid_component_type(utf8(value@)),
            Err(e) => !valid_component_type(utf8(value@)) && (e matches ValidationError::InvalidIdentifier { kind: k, value: v }
                && k@ == "component type"@ && v@ == value@),
        },
{
    if is_valid_component_type(value) {
        Ok(())
    } else {
        Err(ValidationError::InvalidIdentifier { kind: "component type", value: String::from_str(value) })
    }
}

/// What checking a bounded string gives: a required string must not be
/// empty, and no string may exceed 256 bytes.
pub open spec fn string_check(field: &'static str, bytes: Seq<u8>, allow_empty: bool) -> Result<(), ValidationError> {
    if !allow_empty && bytes.len() == 0 {
        Err(ValidationError::EmptyString { field })
    } else if bytes.len() > MAX_STRING_LEN {
        Err(ValidationError::StringTooLong { field, actual: bytes.len() as usize, maximum: MAX_STRING_LEN })
    } else {
        Ok(())
    }
}

/// Checks a bounded string.
pub fn validate_string(field: &'static str, value: &str, allow_empty: bool) -> (r: Result<(), ValidationError>)
    ensures
        r == string_check(field, utf8(value@), allow_empty),
{
    let len = value.as_bytes().len();
    if !allow_empty && len == 0 {
        return Err(ValidationError::EmptyString { field });
    }
    if len > MAX_STRING_LEN {
        return Err(ValidationError::StringTooLong { field, actual: len, maximum: MAX_STRING_LEN });
    }
    Ok(())
}

/// Whether `b` is an ASCII hexadecimal digit.
pub open spec fn is_hex_digit(b: u8) -> bool {
    (0x30 <= b && b <= 0x39) || (0x41 <= b && b <= 0x46) || (0x61 <= b && b <= 0x66)
}

/// Whether `bytes` are `#` followed by 3, 4, 6 or 8 hexadecimal digits.
pub open spec fn hex_color(bytes: Seq<u8>) -> bool {
    &&& bytes.len() > 0 && bytes[0] == 0x23
    &&& (bytes.len() == 4 || bytes.len() == 5 || bytes.len() == 7 || bytes.len() == 9)
    &&& forall|i: int| 1 <= i < bytes.len() ==> is_hex_digit(#[trigger] bytes[i])
}

fn hex_digit(b: u8) -> (r: bool)
    ensures
        r == is_hex_digit(b),
{
    (b >= 0x30 && b <= 0x39) || (b >= 0x41 && b <= 0x46) || (b >= 0x61 && b <= 0x66)
}

/// Checks a theme color token.
pub fn validate_color(field: &'static str, value: &str) -> (r: Result<(), ValidationError>)
    ensures
        match string_check(field, utf8(value@), false) {
            Err(e) => r == Err::<(), ValidationError>(e),
            Ok(()) => match r {
                Ok(()) => hex_color(utf8(value@)),
                Err(e) => !hex_color(utf8(value@)) && (e matches ValidationError::InvalidColor { field: f, value: v }
                    && f == field && v@ == value@),
            },
        },
{
    validate_string(field, value, false)?;
    let bytes = value.as_bytes();
    let n = bytes.len();
    let mut valid = bytes[0] == 0x23 && (n == 4 || n == 5 || n == 7 || n == 9);
    let mut i: usize = 1;
    while valid && i < n
        invariant
            n == bytes@.len(),
            bytes@ == utf8(value@),
            1 <= i <= n,
            valid ==> forall|j: int| 1 <= j < i ==> is_hex_digit(#[trigger] bytes@[j]),
            valid ==> bytes@[0] == 0x23 && (n == 4 || n == 5 || n == 7 || n == 9),
            !valid ==> !hex_color(bytes@),
        decreases n - i,
    {
        if !hex_digit(bytes[i]) {
            valid = false;
        }
        i = i + 1;
    }
    if valid {
        Ok(())
    } else {
        Err(ValidationError::InvalidColor { field, value: String::from_str(value) })
    }
}

/// Integer geometry for one widget at one breakpoint.
#[derive(Debug, Clone, Copy, PartialEq, Eq, Structural)]
pub struct GridPlacement {
    /// Zero-based grid column.
    pub x: u16,
    /// Zero-based grid row.
    pub y: u16,
    /// Width in grid columns.
    pub width: u16,
    /// Height in grid rows.
    pub height: u16,
}

/// Whether a placement covers at least one cell and stays inside the grid.
pub open spec fn placement_fits(p: GridPlacement) -> bool {
    p.width > 0 && p.height > 0 && p.x + p.width <= MAX_GRID_COLUMNS && p.y + p.height <= MAX_GRID_ROWS
}

/// Checks a widget placement.
pub fn validate_placement(placement: GridPlacement) -> (r: Result<(), ValidationError>)
    ensures
        r is Ok <==> placement_fits(placement),
        r is Err ==> r == Err::<(), ValidationError>(ValidationError::InvalidGridPlacement),
{
    let valid = placement.width > 0 && placement.height > 0 && match placement.x.checked_add(placement.width) {
        Some(right) => right <= MAX_GRID_COLUMNS,
        None => false,
    } && match placement.y.checked_add(placement.height) {
        Some(bottom) => bottom <= MAX_GRID_ROWS,
        None => false,
    };
    if valid {
        Ok(())
    } else {
        Err(ValidationError::InvalidGridPlacement)
    }
}

/// Checks the entry count of one settings array or object.
pub fn validate_collection_len(actual: usize) -> (r: Result<(), ValidationError>)
    ensures
        actual <= MAX_SETTINGS_ENTRIES ==> r is Ok,
        actual > MAX_SETTINGS_ENTRIES ==> r == Err::<(), ValidationError>(
            ValidationError::TooManySettingsEntries { actual, maximum: MAX_SETTINGS_ENTRIES },
        ),
{
    if actual > MAX_SETTINGS_ENTRIES {
        Err(ValidationError::TooManySettingsEntries { actual, maximum: MAX_SETTINGS_ENTRIES })
    } else {
        Ok(())
    }
}

/// Validated dotted built-in component type, such as `core.tachometer`.
#[derive(Debug, Clone, PartialEq, Eq, PartialOrd, Ord, Hash)]
pub struct ComponentType {
    value: String,
}

impl ComponentType {
    /// The component type's text.
    pub closed spec fn text(&self) -> Seq<char> {
        self.value@
    }

    /// Creates a component type, rejecting one whose dotted segments are not
    /// safe slugs.
    pub fn new(value: String) -> (r: Result<ComponentType, ValidationError>)
        ensures
            match r {
                Ok(c) => valid_component_type(utf8(value@)) && c.text() == value@,
                Err(e) => !valid_component_type(utf8(value@)) && (e matches ValidationError::InvalidIdentifier { kind: k, value: v }
                    && k@ == "component type"@ && v@ == value@),
            },
    {
        validate_component_type(value.as_str())?;
        Ok(ComponentType { value })
    }

    /// Holds a value read from a stored document as it is; the document's
    /// validation checks it.
    pub fn from_stored(value: String) -> (r: ComponentType)
        ensures
            r.text() == value@,
    {
        ComponentType { value }
    }

    /// Returns the stable dotted component type.
    pub fn as_str(&self) -> (s: &str)
        ensures
            s@ == self.text(),
    {
        self.value.as_str()
    }
}

/// Validated layout identifier.
#[derive(Debug, Clone, PartialEq, Eq, PartialOrd, Ord, Hash)]
pub struct LayoutId {
    value: String,
}

impl LayoutId {
    /// The identifier's text.
    pub closed spec fn text(&self) -> Seq<char> {
        self.value@
    }

    /// Creates a layout identifier, rejecting an unsafe slug.
    pub fn new(value: String) -> (r: Result<LayoutId, ValidationError>)
        ensures
            match r {
                Ok(id) => valid_identifier(utf8(value@)) && id.text() == value@,
                Err(e) => !valid_identifier(utf8(value@)) && (e matches ValidationError::InvalidIdentifier { kind: k, value: v }
                    && k@ == "layout"@ && v@ == value@),
            },
    {
        validate_identifier("layout", value.as_str())?;
        Ok(LayoutId { value })
    }

    /// Holds a value read from a stored document as it is; the document's
    /// validation checks it.
    pub fn from_stored(value: String) -> (r: LayoutId)
        ensures
            r.text() == value@,
    {
        LayoutId { value }
    }

    /// Returns the stable identifier text.
    pub fn as_str(&self) -> (s: &str)
        ensures
            s@ == self.text(),
    {
        self.value.as_str()
    }
}

/// Validated widget instance identifier.
#[derive(Debug, Clone, PartialEq, Eq, PartialOrd, Ord, Hash)]
pub struct InstanceId {
    value: String,
}

impl InstanceId {
    /// The identifier's text.
    pub closed spec fn text(&self) -> Seq<char> {
        self.value@
    }

    /// Creates a widget instance identifier, rejecting an unsafe slug.
    pub fn new(value: String) -> (r: Result<InstanceId, ValidationError>)
        ensures
            match r {
                Ok(id) => valid_identifier(utf8(value@)) && id.text() == value@,
                Err(e) => !valid_identifier(utf8(value@)) && (e matches ValidationError::InvalidIdentifier { kind: k, value: v }
                    && k@ == "widget instance"@ && v@ == value@),
            },
    {
        validate_identifier("widget instance", value.as_str())?;
        Ok(InstanceId { value })
    }

    /// Holds a value read from a stored document as it is; the document's
    /// validation checks it.
    pub fn from_stored(value: String) -> (r: InstanceId)
        ensures
            r.text() == value@,
    {
        InstanceId { value }
    }

    /// Returns the stable identifier text.
    pub fn as_str(&self) -> (s: &str)
        ensures
            s@ == self.text(),
    {
        self.value.as_str()
    }
}

/// Responsive dashboard breakpoint.
#[derive(Debug, Clone, Copy, PartialEq, Eq, Structural, PartialOrd, Ord, Hash)]
pub enum BreakpointName {
    /// Narrow portrait phone layout.
    PhonePortrait,
    /// Wide phone layout.
    PhoneLandscape,
    /// Tablet-sized layout.
    Tablet,
    /// Desktop preview layout.
    Desktop,
}

/// Safe theme tokens exposed to built-in widgets.
#[derive(Debug, Clone, PartialEq, Eq)]
pub struct ThemeSettings {
    /// Dashboard background CSS color token.
    pub background: String,
    /// Primary foreground CSS color token.
    pub foreground: String,
    /// Accent CSS color token.
    pub accent: String,
    /// Warning CSS color token.
    pub warning: String,
}

impl Default for ThemeSettings {
    fn default() -> (t: ThemeSettings)
        ensures
            t.background@ == "#07090f"@,
            t.foreground@ == "#f5f7fb"@,
            t.accent@ == "#3ee6a8"@,
            t.warning@ == "#ff4d5e"@,
    {
        ThemeSettings {
            background: String::from_str("#07090f"),
            foreground: String::from_str("#f5f7fb"),
            accent: String::from_str("#3ee6a8"),
            warning: String::from_str("#ff4d5e"),
        }
    }
}

/// Versioned Host network and publication settings.
#[derive(Debug, Clone, PartialEq, Eq)]
pub struct HostSettings {
    /// Settings schema version.
    pub schema_version: u16,
    /// F1 UDP listen address.
    pub udp_bind: String,
    /// Local HTTP listen address.
    pub http_bind: String,
    /// Maximum snapshot publication rate.
    pub snapshot_hz: u16,
}

impl Default for HostSettings {
    fn default() -> (s: HostSettings)
        ensures
            s.schema_version == CONFIG_SCHEMA_VERSION,
            s.udp_bind@ == "0.0.0.0:20777"@,
            s.http_bind@ == "0.0.0.0:20778"@,
            s.snapshot_hz == 60,
    {
        HostSettings {
            schema_version: CONFIG_SCHEMA_VERSION,
            udp_bind: String::from_str("0.0.0.0:20777"),
            http_bind: String::from_str("0.0.0.0:20778"),
            snapshot_hz: 60,
        }
    }
}

/// What validating Host settings gives: the schema version, both bind
/// addresses, then the publication rate, which must be 20, 30 or 60 Hz.
pub open spec fn settings_check(s: HostSettings) -> Result<(), ValidationError> {
    if s.schema_version != CONFIG_SCHEMA_VERSION {
        Err(ValidationError::UnsupportedSchema { actual: s.schema_version })
    } else if string_check("UDP bind address", utf8(s.udp_bind@), false) is Err {
        string_check("UDP bind address", utf8(s.udp_bind@), false)
    } else if string_check("HTTP bind address", utf8(s.http_bind@), false) is Err {
        string_check("HTTP bind address", utf8(s.http_bind@), false)
    } else if !(s.snapshot_hz == 20 || s.snapshot_hz == 30 || s.snapshot_hz == 60) {
        Err(ValidationError::UnsupportedSnapshotRate(s.snapshot_hz))
    } else {
        Ok(())
    }
}

impl HostSettings {
    /// Validates safe settings bounds before runtime use.
    pub fn validate(&self) -> (r: Result<(), ValidationError>)
        ensures
            r == settings_check(*self),
    {
        if self.schema_version != CONFIG_SCHEMA_VERSION {
            return Err(ValidationError::UnsupportedSchema { actual: self.schema_version });
        }
        validate_string("UDP bind address", self.udp_bind.as_str(), false)?;
        validate_string("HTTP bind address", self.http_bind.as_str(), false)?;
        if !(self.snapshot_hz == 20 || self.snapshot_hz == 30 || self.snapshot_hz == 60) {
            return Err(ValidationError::UnsupportedSnapshotRate(self.snapshot_hz));
        }
        Ok(())
    }
}

} // verus!
