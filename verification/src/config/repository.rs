//! Layout and settings persistence: document migration, paths, revision
//! rules and recovery decisions. The file operations themselves are
//! performed by the caller, which hands each outcome back here.
use vstd::prelude::*;
use vstd::string::{StrSliceExecFns, StringExecFns};

use super::json::{json_document, parse_json_document, JsonMember, JsonNumber, JsonValue};
use super::layout::{layout_verdict, LayoutDocument};
use super::model::{ValidationError, CONFIG_SCHEMA_VERSION, MAX_LAYOUT_BYTES};
use crate::text::{debug_quoted, decimal, render_debug_quoted, render_decimal};

verus! {

/// Backups kept per layout and for the settings file.
pub const DEFAULT_BACKUP_LIMIT: usize = 3;

/// Largest accepted settings document in bytes.
pub const MAX_SETTINGS_BYTES: usize = 65536;

/// Failure while migrating, validating, loading, or saving configuration.
#[derive(Debug, Clone, PartialEq, Eq)]
pub enum ConfigError {
    /// A filesystem operation failed.
    Io {
        /// Path involved in the operation.
        path: String,
        /// The operating system's description of the failure.
        message: String,
    },
    /// JSON syntax or typed deserialization failed; holds the parser's message.
    Json(String),
    /// Runtime validation failed.
    Validation(ValidationError),
    /// Client attempted to save from an obsolete revision.
    Conflict {
        /// Latest stored revision.
        current_revision: u64,
    },
    /// Document schema is newer or otherwise unsupported.
    UnsupportedSchema {
        /// Rejected schema version.
        actual: u16,
    },
    /// `schemaVersion` is not an unsigned 16-bit integer.
    InvalidSchemaVersion,
    /// A deterministic migration precondition was not met.
    Migration(&'static str),
    /// Serialized or imported document exceeds its byte bound.
    DocumentTooLarge {
        /// Observed byte count.
        actual: usize,
        /// Maximum byte count.
        maximum: usize,
    },
    /// Primary data was invalid and no valid bounded backup remained.
    RecoveryFailed {
        /// Layout for which recovery failed.
        layout_id: String,
    },
    /// Revision counter reached its representable maximum.
    RevisionExhausted,
}

impl ConfigError {
    /// The failure as it is displayed.
    pub open spec fn text(&self) -> Seq<char> {
        match self {
            ConfigError::Io { path, message } => "configuration I/O failed at "@ + path@ + ": "@ + message@,
            ConfigError::Json(message) => "invalid configuration JSON: "@ + message@,
            ConfigError::Validation(error) => error.message(),
            ConfigError::Conflict { current_revision } => "configuration revision conflict; current revision is "@
                + decimal(*current_revision as nat),
            ConfigError::UnsupportedSchema { actual } => "unsupported configuration schema version "@ + decimal(
                *actual as nat,
            ),
            ConfigError::InvalidSchemaVersion => "configuration schemaVersion must be an unsigned 16-bit integer"@,
            ConfigError::Migration(message) => "configuration migration failed: "@ + message@,
            ConfigError::DocumentTooLarge { actual, maximum } => "configuration is "@ + decimal(*actual as nat)
                + " bytes; maximum is "@ + decimal(*maximum as nat),
            ConfigError::RecoveryFailed { layout_id } => "no valid backup remains for layout "@ + debug_quoted(
                layout_id@,
            ),
            ConfigError::RevisionExhausted => "configuration revision is exhausted"@,
        }
    }

    /// Renders the failure for diagnostics.
    pub fn to_string(&self) -> (s: String)
        ensures
            s@ == self.text(),
    {
        match self {
            ConfigError::Io { path, message } => {
                let mut s = String::from_str("configuration I/O failed at ");
                s.append(path.as_str());
                s.append(": ");
                s.append(message.as_str());
                s
            },
            ConfigError::Json(message) => {
                let mut s = String::from_str("invalid configuration JSON: ");
                s.append(message.as_str());
                s
            },
            ConfigError::Validation(error) => error.to_string(),
            ConfigError::Conflict { current_revision } => {
                let mut s = String::from_str("configuration revision conflict; current revision is ");
                s.append(render_decimal(*current_revision).as_str());
                s
            },
            ConfigError::UnsupportedSchema { actual } => {
                let mut s = String::from_str("unsupported configuration schema version ");
                s.append(render_decimal(*actual as u64).as_str());
                s
            },
            ConfigError::InvalidSchemaVersion => String::from_str(
                "configuration schemaVersion must be an unsigned 16-bit integer",
            ),
            ConfigError::Migration(message) => {
                let mut s = String::from_str("configuration migration failed: ");
                s.append(message);
                s
            },
            ConfigError::DocumentTooLarge { actual, maximum } => {
                let mut s = String::from_str("configuration is ");
                s.append(render_decimal(*actual as u64).as_str());
                s.append(" bytes; maximum is ");
                s.append(render_decimal(*maximum as u64).as_str());
                s
            },
            ConfigError::RecoveryFailed { layout_id } => {
                let mut s = String::from_str("no valid backup remains for layout ");
                s.append(render_debug_quoted(layout_id.as_str()).as_str());
                s
            },
            ConfigError::RevisionExhausted => String::from_str("configuration revision is exhausted"),
        }
    }

    /// Whether the failure is about the stored content, which a backup can replace.
    pub open spec fn is_content_error(&self) -> bool {
        match self {
            ConfigError::Json(_) | ConfigError::Validation(_) | ConfigError::UnsupportedSchema { .. }
            | ConfigError::InvalidSchemaVersion | ConfigError::Migration(_)
            | ConfigError::DocumentTooLarge { .. } => true,
            _ => false,
        }
    }

    /// Whether the failure is about the stored content, which a backup can replace.
    pub fn is_recoverable_content_error(&self) -> (b: bool)
        ensures
            b == self.is_content_error(),
    {
        match self {
            ConfigError::Json(_) | ConfigError::Validation(_) | ConfigError::UnsupportedSchema { .. }
            | ConfigError::InvalidSchemaVersion | ConfigError::Migration(_)
            | ConfigError::DocumentTooLarge { .. } => true,
            _ => false,
        }
    }
}

/// The value of the first member of `members` named `key`.
pub open spec fn member_value(members: Seq<JsonMember>, key: Seq<char>) -> Option<JsonValue>
    decreases members.len(),
{
    if members.len() == 0 {
        None
    } else if members[0].key@ == key {
        Some(members[0].value)
    } else {
        member_value(members.subrange(1, members.len() as int), key)
    }
}

/// The value named `key` of an object; nothing for any other value.
pub open spec fn object_member(v: JsonValue, key: Seq<char>) -> Option<JsonValue> {
    match v {
        JsonValue::Object(members) => member_value(members@, key),
        _ => None,
    }
}

/// What reading a document's `schemaVersion` gives: version zero when it is
/// absent, the version when it is an integer that fits a `u16`, otherwise
/// an invalid schema version.
pub open spec fn schema_version_verdict(v: JsonValue) -> Result<u16, ConfigError> {
    match object_member(v, "schemaVersion"@) {
        None => Ok(0),
        Some(JsonValue::Number(JsonNumber::PosInt(n))) => if n <= u16::MAX as u64 {
            Ok(n as u16)
        } else {
            Err(ConfigError::InvalidSchemaVersion)
        },
        Some(_) => Err(ConfigError::InvalidSchemaVersion),
    }
}

fn find_member(members: &Vec<JsonMember>, key: &str) -> (r: Option<usize>)
    ensures
        match r {
            Some(i) => i < members@.len() && members@[i as int].key@ == key@
                && member_value(members@, key@) == Some(members@[i as int].value)
                && forall|j: int| 0 <= j < i ==> (#[trigger] members@[j]).key@ != key@,
            None => member_value(members@, key@) is None
                && forall|j: int| 0 <= j < members@.len() ==> (#[trigger] members@[j]).key@ != key@,
        },
{
    let n = members.len();
    let mut i: usize = 0;
    proof {
        assert(members@.subrange(0, n as int) =~= members@);
    }
    while i < n
        invariant
            n == members@.len(),
            i <= n,
            forall|j: int| 0 <= j < i ==> (#[trigger] members@[j]).key@ != key@,
            member_value(members@, key@) == member_value(members@.subrange(i as int, n as int), key@),
        decreases n - i,
    {
        let ghost rest = members@.subrange(i as int, n as int);
        proof {
            assert(rest[0] == members@[i as int]);
            assert(rest.subrange(1, rest.len() as int) =~= members@.subrange(i + 1, n as int));
        }
        if members[i].key == String::from_str(key) {
            return Some(i);
        }
        i = i + 1;
    }
    None
}

/// Reads a document's schema version.
pub fn schema_version_of(value: &JsonValue) -> (r: Result<u16, ConfigError>)
    ensures
        r == schema_version_verdict(*value),
{
    match value {
        JsonValue::Object(members) => match find_member(members, "schemaVersion") {
            None => Ok(0),
            Some(i) => match &members[i].value {
                JsonValue::Number(JsonNumber::PosInt(n)) => if *n <= 65535 {
                    Ok(*n as u16)
                } else {
                    Err(ConfigError::InvalidSchemaVersion)
                },
                _ => Err(ConfigError::InvalidSchemaVersion),
            },
        },
        _ => Ok(0),
    }
}

/// Whether `after` is `before` with `key` set to `value`: the first member
/// so named is replaced, or a member is appended when there is none.
pub open spec fn member_set(before: Seq<JsonMember>, key: Seq<char>, value: JsonValue, after: Seq<JsonMember>) -> bool {
    &&& member_value(after, key) == Some(value)
    &&& forall|k: Seq<char>| k != key ==> member_value(after, k) == member_value(before, k)
}

proof fn lemma_member_value_push(members: Seq<JsonMember>, m: JsonMember, k: Seq<char>)
    ensures
        member_value(members.push(m), k) == match member_value(members, k) {
            Some(v) => Some(v),
            None => if m.key@ == k { Some(m.value) } else { None },
        },
    decreases members.len(),
{
    let pushed = members.push(m);
    if members.len() > 0 {
        let rest = members.subrange(1, members.len() as int);
        assert(pushed[0] == members[0]);
        assert(pushed.subrange(1, pushed.len() as int) =~= rest.push(m));
        lemma_member_value_push(rest, m, k);
        if members[0].key@ != k {
            assert(member_value(pushed, k) == member_value(rest.push(m), k));
            assert(member_value(members, k) == member_value(rest, k));
        }
    } else {
        assert(pushed[0] == m);
        assert(pushed.subrange(1, pushed.len() as int) =~= Seq::<JsonMember>::empty());
        assert(member_value(Seq::<JsonMember>::empty(), k) is None);
    }
}

proof fn lemma_member_value_update(members: Seq<JsonMember>, i: int, m: JsonMember, k: Seq<char>)
    requires
        0 <= i < members.len(),
        m.key@ == members[i].key@,
        forall|j: int| 0 <= j < i ==> (#[trigger] members[j]).key@ != members[i].key@,
    ensures
        member_value(members.update(i, m), k) == if k == m.key@ { Some(m.value) } else { member_value(members, k) },
    decreases members.len(),
{
    let updated = members.update(i, m);
    let tail = members.subrange(1, members.len() as int);
    if i == 0 {
        assert(updated[0] == m);
        assert(updated.subrange(1, members.len() as int) =~= tail);
    } else {
        assert(updated[0] == members[0]);
        assert(members[0].key@ != members[i].key@);
        assert(tail[i - 1] == members[i]);
        assert(updated.subrange(1, members.len() as int) =~= tail.update(i - 1, m));
        assert forall|j: int| 0 <= j < i - 1 implies (#[trigger] tail[j]).key@ != tail[i - 1].key@ by {
            assert(tail[j] == members[j + 1]);
        }
        lemma_member_value_update(tail, i - 1, m, k);
    }
}

fn set_member(members: &mut Vec<JsonMember>, key: &str, value: JsonValue)
    ensures
        member_set(old(members)@, key@, value, final(members)@),
{
    match find_member(members, key) {
        Some(i) => {
            let ghost before = members@;
            let m = JsonMember { key: String::from_str(key), value };
            members.set(i, m);
            proof {
                assert forall|k: Seq<char>| k != key@ implies member_value(members@, k) == member_value(before, k) by {
                    lemma_member_value_update(before, i as int, m, k);
                }
                lemma_member_value_update(before, i as int, m, key@);
            }
        },
        None => {
            let ghost before = members@;
            let m = JsonMember { key: String::from_str(key), value };
            members.push(m);
            proof {
                assert forall|k: Seq<char>| k != key@ implies member_value(members@, k) == member_value(before, k) by {
                    lemma_member_value_push(before, m, k);
                }
                lemma_member_value_push(before, m, key@);
            }
        },
    }
}

/// The member object of the default v1 theme.
pub open spec fn default_theme_value(v: JsonValue) -> bool {
    v matches JsonValue::Object(members) && {
        &&& member_value(members@, "background"@) matches Some(JsonValue::String(s)) && s@ == "#07090f"@
        &&& member_value(members@, "foreground"@) matches Some(JsonValue::String(s)) && s@ == "#f5f7fb"@
        &&& member_value(members@, "accent"@) matches Some(JsonValue::String(s)) && s@ == "#3ee6a8"@
        &&& member_value(members@, "warning"@) matches Some(JsonValue::String(s)) && s@ == "#ff4d5e"@
    }
}

fn default_theme() -> (v: JsonValue)
    ensures
        default_theme_value(v),
{
    proof {
        reveal_strlit("background");
        reveal_strlit("foreground");
        reveal_strlit("accent");
        reveal_strlit("warning");
        assert("background"@[0] == 'b' && "foreground"@[0] == 'f' && "accent"@[0] == 'a' && "warning"@[0] == 'w');
    }
    let mut members: Vec<JsonMember> = Vec::new();
    set_member(&mut members, "background", JsonValue::String(String::from_str("#07090f")));
    let ghost m1 = members@;
    set_member(&mut members, "foreground", JsonValue::String(String::from_str("#f5f7fb")));
    let ghost m2 = members@;
    set_member(&mut members, "accent", JsonValue::String(String::from_str("#3ee6a8")));
    let ghost m3 = members@;
    set_member(&mut members, "warning", JsonValue::String(String::from_str("#ff4d5e")));
    proof {
        assert(member_value(members@, "background"@) == member_value(m3, "background"@));
        assert(member_value(m3, "background"@) == member_value(m2, "background"@));
        assert(member_value(m2, "background"@) == member_value(m1, "background"@));
        assert(member_value(members@, "foreground"@) == member_value(m3, "foreground"@));
        assert(member_value(m3, "foreground"@) == member_value(m2, "foreground"@));
        assert(member_value(members@, "accent"@) == member_value(m3, "accent"@));
    }
    JsonValue::Object(members)
}

/// Whether `after` is the v0 object `before` migrated to v1: it is an
/// object whose `schemaVersion` is 1 and `revision` 0, whose `widgets` and
/// `theme` are kept or, when absent, an empty array and the default theme,
/// and whose other members are unchanged.
pub open spec fn migrated_v0(before: Seq<JsonMember>, after: JsonValue) -> bool {
    after matches JsonValue::Object(members) && {
        &&& member_value(members@, "schemaVersion"@) == Some(JsonValue::Number(JsonNumber::PosInt(1)))
        &&& member_value(members@, "revision"@) == Some(JsonValue::Number(JsonNumber::PosInt(0)))
        &&& match member_value(before, "widgets"@) {
            Some(w) => member_value(members@, "widgets"@) == Some(w),
            None => member_value(members@, "widgets"@) matches Some(JsonValue::Array(items)) && items@.len() == 0,
        }
        &&& match member_value(before, "theme"@) {
            Some(t) => member_value(members@, "theme"@) == Some(t),
            None => member_value(members@, "theme"@) matches Some(t) && default_theme_value(t),
        }
        &&& forall|k: Seq<char>| k != "schemaVersion"@ && k != "revision"@ && k != "widgets"@ && k != "theme"@
            ==> member_value(members@, k) == member_value(before, k)
    }
}

/// Migrates a v0 layout object to v1.
pub fn migrate_v0_to_v1(value: JsonValue) -> (r: Result<JsonValue, ConfigError>)
    ensures
        match value {
            JsonValue::Object(members) => r matches Ok(after) && migrated_v0(members@, after),
            _ => r == Err::<JsonValue, ConfigError>(ConfigError::Migration("v0 layout must be an object")),
        },
{
    let mut members = match value {
        JsonValue::Object(members) => members,
        _ => return Err(ConfigError::Migration("v0 layout must be an object")),
    };
    let ghost before = members@;
    proof {
        reveal_strlit("schemaVersion");
        reveal_strlit("revision");
        reveal_strlit("widgets");
        reveal_strlit("theme");
        assert("schemaVersion"@[0] == 's' && "revision"@[0] == 'r' && "widgets"@[0] == 'w' && "theme"@[0] == 't');
    }
    set_member(&mut members, "schemaVersion", JsonValue::Number(JsonNumber::PosInt(1)));
    let ghost m1 = members@;
    set_member(&mut members, "revision", JsonValue::Number(JsonNumber::PosInt(0)));
    let ghost m2 = members@;
    proof {
        assert(member_value(m2, "widgets"@) == member_value(before, "widgets"@));
        assert(member_value(m2, "theme"@) == member_value(before, "theme"@));
        assert(member_value(m2, "schemaVersion"@) == member_value(m1, "schemaVersion"@));
    }
    if find_member(&members, "widgets").is_none() {
        set_member(&mut members, "widgets", JsonValue::Array(Vec::new()));
    }
    let ghost m3 = members@;
    proof {
        assert(member_value(m3, "theme"@) == member_value(before, "theme"@));
        assert(member_value(m3, "schemaVersion"@) == member_value(m2, "schemaVersion"@));
        assert(member_value(m3, "revision"@) == member_value(m2, "revision"@));
    }
    if find_member(&members, "theme").is_none() {
        set_member(&mut members, "theme", default_theme());
    }
    proof {
        assert(member_value(members@, "widgets"@) == member_value(m3, "widgets"@));
        assert(member_value(members@, "schemaVersion"@) == member_value(m3, "schemaVersion"@));
        assert(member_value(members@, "revision"@) == member_value(m3, "revision"@));
        assert forall|k: Seq<char>| k != "schemaVersion"@ && k != "revision"@ && k != "widgets"@ && k != "theme"@
            implies member_value(members@, k) == member_value(before, k) by {
            assert(member_value(members@, k) == member_value(m3, k));
            assert(member_value(m3, k) == member_value(m2, k));
            assert(member_value(m2, k) == member_value(m1, k));
        }
    }
    Ok(JsonValue::Object(members))
}

/// What migrating a layout document gives, the document `len` bytes long
/// and its JSON parse `parsed`: size, parse, then the schema version, which
/// selects the v0 migration, no change, or a refusal.
pub open spec fn migration_verdict(len: nat, parsed: Result<JsonValue, Seq<char>>, r: Result<JsonValue, ConfigError>) -> bool {
    if len > MAX_LAYOUT_BYTES {
        r == Err::<JsonValue, ConfigError>(ConfigError::DocumentTooLarge { actual: len as usize, maximum: MAX_LAYOUT_BYTES })
    } else {
        match parsed {
            Err(m) => r matches Err(ConfigError::Json(t)) && t@ == m,
            Ok(v) => match schema_version_verdict(v) {
                Err(e) => r == Err::<JsonValue, ConfigError>(e),
                Ok(0) => match v {
                    JsonValue::Object(members) => r matches Ok(after) && migrated_v0(members@, after),
                    _ => r == Err::<JsonValue, ConfigError>(ConfigError::Migration("v0 layout must be an object")),
                },
                Ok(version) => if version == CONFIG_SCHEMA_VERSION {
                    r == Ok::<JsonValue, ConfigError>(v)
                } else {
                    r == Err::<JsonValue, ConfigError>(ConfigError::UnsupportedSchema { actual: version })
                },
            },
        }
    }
}

/// The view of a parse result: its value, or its failure's text.
pub open spec fn parsed_view<T>(parsed: Result<T, String>) -> Result<T, Seq<char>> {
    match parsed {
        Ok(v) => Ok(v),
        Err(m) => Err(m@),
    }
}

/// Brings a layout document to the current schema: a document over the
/// size limit is refused before it is parsed, and a missing `schemaVersion`
/// is the deterministic v0 format.
pub fn migrate_layout_json(bytes: &[u8]) -> (r: Result<JsonValue, ConfigError>)
    ensures
        migration_verdict(bytes@.len(), json_document(bytes@), r),
{
    if bytes.len() > MAX_LAYOUT_BYTES {
        return Err(ConfigError::DocumentTooLarge { actual: bytes.len(), maximum: MAX_LAYOUT_BYTES });
    }
    let parsed = parse_json_document(bytes);
    migrate_parsed_layout(bytes.len(), parsed)
}

/// Brings a layout document of `len` bytes, parsed as `parsed`, to the
/// current schema: a missing `schemaVersion` is the deterministic v0 format.
pub fn migrate_parsed_layout(len: usize, parsed: Result<JsonValue, String>) -> (r: Result<JsonValue, ConfigError>)
    ensures
        migration_verdict(len as nat, parsed_view(parsed), r),
{
    if len > MAX_LAYOUT_BYTES {
        return Err(ConfigError::DocumentTooLarge { actual: len, maximum: MAX_LAYOUT_BYTES });
    }
    let value = match parsed {
        Err(m) => return Err(ConfigError::Json(m)),
        Ok(v) => v,
    };
    let version = match schema_version_of(&value) {
        Err(e) => return Err(e),
        Ok(v) => v,
    };
    if version == 0 {
        migrate_v0_to_v1(value)
    } else if version == CONFIG_SCHEMA_VERSION {
        Ok(value)
    } else {
        Err(ConfigError::UnsupportedSchema { actual: version })
    }
}

/// Accepts the typed reading `typed` of a migrated document once it
/// validates.
pub fn accept_layout(typed: Result<LayoutDocument, String>) -> (r: Result<LayoutDocument, ConfigError>)
    ensures
        match typed {
            Err(m) => r matches Err(ConfigError::Json(t)) && t@ == m@,
            Ok(d) => match r {
                Ok(accepted) => accepted == d && layout_verdict(d, Ok(())),
                Err(ConfigError::Validation(e)) => layout_verdict(d, Err(e)),
                Err(_) => false,
            },
        },
{
    let document = match typed {
        Err(m) => return Err(ConfigError::Json(m)),
        Ok(d) => d,
    };
    match document.validate() {
        Ok(()) => Ok(document),
        Err(e) => Err(ConfigError::Validation(e)),
    }
}

/// `path` joined with the relative name `name`, as `Path::join` joins on
/// Unix: a separator is added unless `path` is empty or already ends in one.
pub open spec fn path_join(path: Seq<char>, name: Seq<char>) -> Seq<char> {
    if path.len() == 0 || path.last() == '/' {
        path + name
    } else {
        path + "/"@ + name
    }
}

/// Joins the relative name `name` to `path`.
pub fn join_path(path: &str, name: &str) -> (r: String)
    ensures
        r@ == path_join(path@, name@),
{
    proof {
        reveal_strlit("/");
    }
    let n = path.unicode_len();
    let mut joined = String::from_str(path);
    if n > 0 && path.get_char(n - 1) != '/' {
        joined.append("/");
    }
    joined.append(name);
    joined
}

/// `text` left-padded with zeros to `width` characters.
pub open spec fn zero_padded(text: Seq<char>, width: nat) -> Seq<char>
    decreases width - text.len(),
{
    if text.len() >= width {
        text
    } else {
        zero_padded(seq!['0'] + text, width)
    }
}

/// Renders `n` in decimal, zero-padded to twenty digits.
pub fn render_decimal_padded20(n: u64) -> (s: String)
    ensures
        s@ == zero_padded(decimal(n as nat), 20),
{
    proof {
        reveal_strlit("0");
    }
    let mut s = render_decimal(n);
    while s.as_str().unicode_len() < 20
        invariant
            zero_padded(s@, 20) == zero_padded(decimal(n as nat), 20),
        decreases 20 - s@.len(),
    {
        proof {
            reveal_strlit("0");
        }
        let mut padded = String::from_str("0");
        padded.append(s.as_str());
        assert(seq!['0'] + s@ =~= padded@);
        s = padded;
    }
    s
}

/// Result of loading a primary or recovered layout.
#[derive(Debug, PartialEq)]
pub struct LoadedLayout {
    /// Valid, migrated layout.
    pub document: LayoutDocument,
    /// Whether a backup replaced an invalid primary.
    pub recovered: bool,
    /// Preserved corrupt primary when recovery occurred.
    pub quarantined_path: Option<String>,
}

/// What to do after reading a primary document.
#[derive(Debug, PartialEq)]
pub enum PrimaryRead<T> {
    /// The primary is valid and is used as is.
    Loaded(T),
    /// The primary's content is invalid: quarantine it and recover.
    Recover,
    /// Reading failed for another reason, which is reported.
    Fail(ConfigError),
}

/// Decides what reading a primary document gave: a valid document is used,
/// a content failure starts recovery, any other failure is reported.
pub fn after_primary_read<T>(read: Result<T, ConfigError>) -> (step: PrimaryRead<T>)
    ensures
        match read {
            Ok(d) => step == PrimaryRead::Loaded(d),
            Err(e) => if e.is_content_error() { step == PrimaryRead::<T>::Recover } else { step == PrimaryRead::<T>::Fail(e) },
        },
{
    match read {
        Ok(d) => PrimaryRead::Loaded(d),
        Err(e) => if e.is_recoverable_content_error() {
            PrimaryRead::Recover
        } else {
            PrimaryRead::Fail(e)
        },
    }
}

/// How many of `count` backups to delete, oldest first, to keep `limit`.
pub fn prune_count(count: usize, limit: usize) -> (n: usize)
    ensures
        n == if count > limit { count - limit } else { 0 },
{
    count.saturating_sub(limit)
}

/// Filesystem-backed versioned layout repository.
#[derive(Debug, Clone)]
pub struct LayoutRepository {
    root: String,
    backup_limit: usize,
}

impl LayoutRepository {
    /// The application-data directory.
    pub closed spec fn spec_root(&self) -> Seq<char> {
        self.root@
    }

    /// How many backups are kept per layout.
    pub closed spec fn spec_backup_limit(&self) -> usize {
        self.backup_limit
    }

    /// Creates a repository rooted at an application-data directory, keeping
    /// three backups per layout.
    pub fn new(root: String) -> (r: LayoutRepository)
        ensures
            r.spec_root() == root@,
            r.spec_backup_limit() == DEFAULT_BACKUP_LIMIT,
    {
        LayoutRepository { root, backup_limit: DEFAULT_BACKUP_LIMIT }
    }

    /// Returns the application-data directory.
    pub fn root(&self) -> (s: &str)
        ensures
            s@ == self.spec_root(),
    {
        self.root.as_str()
    }

    /// Returns how many backups are kept per layout.
    pub fn backup_limit(&self) -> (n: usize)
        ensures
            n == self.spec_backup_limit(),
    {
        self.backup_limit
    }

    /// Returns the primary JSON path of a layout: `layouts/<id>.json`.
    pub fn layout_path(&self, id: &super::model::LayoutId) -> (p: String)
        ensures
            p@ == path_join(path_join(self.spec_root(), "layouts"@), id.text() + ".json"@),
    {
        let mut file = String::from_str(id.as_str());
        file.append(".json");
        let layouts = join_path(self.root.as_str(), "layouts");
        join_path(layouts.as_str(), file.as_str())
    }

    /// Returns the backup directory of a layout: `backups/<id>`.
    pub fn backup_directory(&self, id: &super::model::LayoutId) -> (p: String)
        ensures
            p@ == path_join(path_join(self.spec_root(), "backups"@), id.text()),
    {
        let backups = join_path(self.root.as_str(), "backups");
        join_path(backups.as_str(), id.as_str())
    }

    /// Returns the backup path of one revision:
    /// `backups/<id>/revision-<20-digit revision>.json`.
    pub fn backup_path(&self, id: &super::model::LayoutId, revision: u64) -> (p: String)
        ensures
            p@ == path_join(
                path_join(path_join(self.spec_root(), "backups"@), id.text()),
                "revision-"@ + zero_padded(decimal(revision as nat), 20) + ".json"@,
            ),
    {
        let directory = self.backup_directory(id);
        let mut file = String::from_str("revision-");
        file.append(render_decimal_padded20(revision).as_str());
        file.append(".json");
        join_path(directory.as_str(), file.as_str())
    }

    /// Stamps the next revision on a validated document: the stored revision
    /// `current_revision` must be the one the client edited, and the counter
    /// must not be exhausted.
    pub fn next_revision(
        &self,
        document: LayoutDocument,
        expected_revision: u64,
        current_revision: u64,
    ) -> (r: Result<LayoutDocument, ConfigError>)
        ensures
            current_revision != expected_revision ==> r == Err::<LayoutDocument, ConfigError>(
                ConfigError::Conflict { current_revision },
            ),
            current_revision == expected_revision && current_revision == u64::MAX ==> r == Err::<
                LayoutDocument,
                ConfigError,
            >(ConfigError::RevisionExhausted),
            current_revision == expected_revision && current_revision < u64::MAX ==> match r {
                Ok(next) => {
                    &&& next.spec_revision() == current_revision + 1
                    &&& next.spec_schema_version() == document.spec_schema_version()
                    &&& next.spec_id() == document.spec_id()
                    &&& next.spec_name() == document.spec_name()
                    &&& next.spec_widgets() == document.spec_widgets()
                    &&& next.spec_theme() == document.spec_theme()
                    &&& layout_verdict(next, Ok(()))
                },
                Err(ConfigError::Validation(e)) => exists|next: LayoutDocument| {
                    &&& next.spec_revision() == current_revision + 1
                    &&& next.spec_schema_version() == document.spec_schema_version()
                    &&& next.spec_id() == document.spec_id()
                    &&& next.spec_name() == document.spec_name()
                    &&& next.spec_widgets() == document.spec_widgets()
                    &&& next.spec_theme() == document.spec_theme()
                    &&& layout_verdict(next, Err(e))
                },
                Err(_) => false,
            },
    {
        if current_revision != expected_revision {
            return Err(ConfigError::Conflict { current_revision });
        }
        let next_revision = match current_revision.checked_add(1) {
            Some(n) => n,
            None => return Err(ConfigError::RevisionExhausted),
        };
        let mut next = document;
        next.set_revision(next_revision);
        match next.validate() {
            Ok(()) => Ok(next),
            Err(e) => Err(ConfigError::Validation(e)),
        }
    }

    /// Finishes recovery of the layout `id` whose corrupt primary was moved to
    /// `quarantined_path`: the newest valid backup `backup` replaces it, or
    /// recovery fails when none remains.
    pub fn recovered(
        &self,
        id: &super::model::LayoutId,
        backup: Option<LayoutDocument>,
        quarantined_path: String,
    ) -> (r: Result<LoadedLayout, ConfigError>)
        ensures
            match backup {
                Some(d) => r matches Ok(loaded) && (loaded.document == d && loaded.recovered
                    && (loaded.quarantined_path matches Some(q) && q@ == quarantined_path@)),
                None => r matches Err(ConfigError::RecoveryFailed { layout_id }) && layout_id@ == id.text(),
            },
    {
        match backup {
            Some(document) => Ok(LoadedLayout { document, recovered: true, quarantined_path: Some(quarantined_path) }),
            None => Err(ConfigError::RecoveryFailed { layout_id: String::from_str(id.as_str()) }),
        }
    }
}

/// Valid settings together with any recovery action performed while loading.
#[derive(Debug, Clone, PartialEq, Eq)]
pub struct LoadedSettings<S> {
    /// Valid settings safe to apply.
    pub settings: S,
    /// Whether a backup replaced an invalid primary.
    pub recovered: bool,
    /// Whether no valid backup existed and safe defaults were installed.
    pub reset_to_defaults: bool,
    /// Preserved invalid primary, when one was found.
    pub quarantined_path: Option<String>,
}

/// Atomic, bounded-backup repository for shared application settings.
#[derive(Debug, Clone)]
pub struct SettingsRepository {
    root: String,
}

impl SettingsRepository {
    /// The application-data directory.
    pub closed spec fn spec_root(&self) -> Seq<char> {
        self.root@
    }

    /// Creates a repository rooted at the application data directory.
    pub fn new(root: String) -> (r: SettingsRepository)
        ensures
            r.spec_root() == root@,
    {
        SettingsRepository { root }
    }

    /// Returns the primary settings path: `settings.json`.
    pub fn settings_path(&self) -> (p: String)
        ensures
            p@ == path_join(self.spec_root(), "settings.json"@),
    {
        join_path(self.root.as_str(), "settings.json")
    }

    /// Returns the settings backup directory: `backups/settings`.
    pub fn backup_directory(&self) -> (p: String)
        ensures
            p@ == path_join(path_join(self.spec_root(), "backups"@), "settings"@),
    {
        let backups = join_path(self.root.as_str(), "backups");
        join_path(backups.as_str(), "settings")
    }

    /// The outcome of loading when no primary exists: the defaults just
    /// written, with nothing recovered.
    pub fn fresh<S>(&self, defaults: S) -> (loaded: LoadedSettings<S>)
        ensures
            loaded == (LoadedSettings { settings: defaults, recovered: false, reset_to_defaults: false, quarantined_path: None }),
    {
        LoadedSettings { settings: defaults, recovered: false, reset_to_defaults: false, quarantined_path: None }
    }

    /// Finishes recovery of an invalid primary moved to `quarantined_path`:
    /// the newest valid backup `backup` is used, or `defaults` when none
    /// remains.
    pub fn recovered<S>(&self, backup: Option<S>, defaults: S, quarantined_path: String) -> (loaded: LoadedSettings<S>)
        ensures
            loaded.quarantined_path matches Some(q) && q@ == quarantined_path@,
            match backup {
                Some(s) => loaded.settings == s && loaded.recovered && !loaded.reset_to_defaults,
                None => loaded.settings == defaults && !loaded.recovered && loaded.reset_to_defaults,
            },
    {
        match backup {
            Some(settings) => LoadedSettings {
                settings,
                recovered: true,
                reset_to_defaults: false,
                quarantined_path: Some(quarantined_path),
            },
            None => LoadedSettings {
                settings: defaults,
                recovered: false,
                reset_to_defaults: true,
                quarantined_path: Some(quarantined_path),
            },
        }
    }
}

/// Checks the byte length of a serialized or stored settings document.
pub fn check_settings_len(len: usize) -> (r: Result<(), ConfigError>)
    ensures
        len <= MAX_SETTINGS_BYTES ==> r is Ok,
        len > MAX_SETTINGS_BYTES ==> r == Err::<(), ConfigError>(
            ConfigError::DocumentTooLarge { actual: len, maximum: MAX_SETTINGS_BYTES },
        ),
{
    if len > MAX_SETTINGS_BYTES {
        Err(ConfigError::DocumentTooLarge { actual: len, maximum: MAX_SETTINGS_BYTES })
    } else {
        Ok(())
    }
}

/// Checks the byte length of a serialized or stored layout document.
pub fn check_layout_len(len: usize) -> (r: Result<(), ConfigError>)
    ensures
        len <= MAX_LAYOUT_BYTES ==> r is Ok,
        len > MAX_LAYOUT_BYTES ==> r == Err::<(), ConfigError>(
            ConfigError::DocumentTooLarge { actual: len, maximum: MAX_LAYOUT_BYTES },
        ),
{
    if len > MAX_LAYOUT_BYTES {
        Err(ConfigError::DocumentTooLarge { actual: len, maximum: MAX_LAYOUT_BYTES })
    } else {
        Ok(())
    }
}

} // verus!
