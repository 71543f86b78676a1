//! JSON values held by layouts (widget settings) and the bounds every
//! persisted settings value must respect.
use serde_json::Value;
use vstd::prelude::*;

use super::model::{string_check, utf8, validate_collection_len, validate_string, ValidationError, MAX_SETTINGS_DEPTH, MAX_SETTINGS_ENTRIES};

verus! {

/// One JSON value.
#[derive(Debug, PartialEq, Eq)]
pub enum JsonValue {
    /// `null`.
    Null,
    /// `true` or `false`.
    Bool(bool),
    /// A number.
    Number(JsonNumber),
    /// A string.
    String(String),
    /// An array, in order.
    Array(Vec<JsonValue>),
    /// An object's members, in order.
    Object(Vec<JsonMember>),
}

/// A JSON number, as the parser classified it.
#[derive(Debug, Clone, PartialEq, Eq)]
pub enum JsonNumber {
    /// A non-negative integer.
    PosInt(u64),
    /// A negative integer.
    NegInt(i64),
    /// Any other number, held as its JSON text.
    Float(String),
}

/// One member of a JSON object.
#[derive(Debug, PartialEq, Eq)]
pub struct JsonMember {
    /// The member's key.
    pub key: String,
    /// The member's value.
    pub value: JsonValue,
}

/// The JSON document that `serde_json::from_slice::<serde_json::Value>`
/// parses from `bytes`, converted one for one to a library value, or the
/// parser's error message.
pub uninterp spec fn json_document(bytes: Seq<u8>) -> Result<JsonValue, Seq<char>>;

/// Converts a parsed `serde_json::Value` one for one: object members in the
/// map's order; a number as a non-negative integer, a negative integer, or
/// its JSON text. Nothing is stated of the result: it is only ever returned
/// by [`parse_json_document`], whose result is named.
#[verifier::external_body]
fn json_value_from(value: &Value) -> JsonValue {
    match value {
        Value::Null => JsonValue::Null,
        Value::Bool(b) => JsonValue::Bool(*b),
        Value::Number(n) => JsonValue::Number(match (n.as_u64(), n.as_i64()) {
            (Some(u), _) => JsonNumber::PosInt(u),
            (None, Some(i)) => JsonNumber::NegInt(i),
            _ => JsonNumber::Float(n.to_string()),
        }),
        Value::String(s) => JsonValue::String(s.clone()),
        Value::Array(items) => JsonValue::Array(items.iter().map(json_value_from).collect()),
        Value::Object(members) => JsonValue::Object(
            members.iter().map(|(k, v)| JsonMember { key: k.clone(), value: json_value_from(v) }).collect(),
        ),
    }
}

/// Parses `bytes` with `serde_json::from_slice` into a `serde_json::Value`
/// and converts it to a library value; a parse failure gives the error's
/// `Display` text. The result is named, not described: it depends on the
/// bytes alone.
#[verifier::external_body]
pub(crate) fn parse_json_document(bytes: &[u8]) -> (r: Result<JsonValue, String>)
    ensures
        match r {
            Ok(v) => json_document(bytes@) == Ok::<JsonValue, Seq<char>>(v),
            Err(e) => json_document(bytes@) == Err::<JsonValue, Seq<char>>(e@),
        },
{
    match serde_json::from_slice::<Value>(bytes) {
        Ok(value) => Ok(json_value_from(&value)),
        Err(error) => Err(error.to_string()),
    }
}

/// What checking a settings value found at nesting depth `depth` gives:
/// depth above 8 is refused, strings are bounded, arrays and objects hold at
/// most 256 entries whose keys are non-empty bounded strings, and their
/// entries are checked one level deeper, in order.
pub open spec fn settings_value_check(v: JsonValue, depth: nat) -> Result<(), ValidationError>
    decreases v, 1nat,
{
    if depth > MAX_SETTINGS_DEPTH {
        Err(ValidationError::SettingsTooDeep { actual: depth as usize, maximum: MAX_SETTINGS_DEPTH })
    } else {
        match v {
            JsonValue::String(s) => string_check("widget setting", utf8(s@), true),
            JsonValue::Array(items) => if items@.len() > MAX_SETTINGS_ENTRIES {
                Err(ValidationError::TooManySettingsEntries { actual: items@.len() as usize, maximum: MAX_SETTINGS_ENTRIES })
            } else {
                settings_items_check(items@, depth + 1)
            },
            JsonValue::Object(members) => if members@.len() > MAX_SETTINGS_ENTRIES {
                Err(ValidationError::TooManySettingsEntries { actual: members@.len() as usize, maximum: MAX_SETTINGS_ENTRIES })
            } else {
                settings_members_check(members@, depth + 1)
            },
            _ => Ok(()),
        }
    }
}

/// The first failure among array entries checked at `depth`, in order.
pub open spec fn settings_items_check(items: Seq<JsonValue>, depth: nat) -> Result<(), ValidationError>
    decreases items, 0nat,
{
    if items.len() == 0 {
        Ok(())
    } else {
        match settings_value_check(items[0], depth) {
            Err(e) => Err(e),
            Ok(()) => settings_items_check(items.subrange(1, items.len() as int), depth),
        }
    }
}

/// The first failure among object members checked at `depth`, in order:
/// each member's key, then its value.
pub open spec fn settings_members_check(members: Seq<JsonMember>, depth: nat) -> Result<(), ValidationError>
    decreases members, 0nat,
{
    if members.len() == 0 {
        Ok(())
    } else {
        match string_check("widget setting key", utf8(members[0].key@), false) {
            Err(e) => Err(e),
            Ok(()) => match settings_value_check(members[0].value, depth) {
                Err(e) => Err(e),
                Ok(()) => settings_members_check(members.subrange(1, members.len() as int), depth),
            },
        }
    }
}

/// Validates one settings value found at nesting depth `depth`.
pub fn validate_json_value(value: &JsonValue, depth: usize) -> (r: Result<(), ValidationError>)
    ensures
        r == settings_value_check(*value, depth as nat),
    decreases value,
{
    if depth > MAX_SETTINGS_DEPTH {
        return Err(ValidationError::SettingsTooDeep { actual: depth, maximum: MAX_SETTINGS_DEPTH });
    }
    match value {
        JsonValue::String(s) => validate_string("widget setting", s.as_str(), true),
        JsonValue::Array(items) => {
            validate_collection_len(items.len())?;
            let n = items.len();
            let mut i: usize = 0;
            proof {
                assert(items@.subrange(0, n as int) =~= items@);
            }
            while i < n
                invariant
                    n == items@.len(),
                    i <= n,
                    depth <= MAX_SETTINGS_DEPTH,
                    *value == JsonValue::Array(*items),
                    settings_value_check(*value, depth as nat) == settings_items_check(items@, depth as nat + 1),
                    settings_items_check(items@, depth as nat + 1) == settings_items_check(
                        items@.subrange(i as int, n as int),
                        depth as nat + 1,
                    ),
                decreases n - i,
            {
                let ghost rest = items@.subrange(i as int, n as int);
                proof {
                    assert(decreases_to!(*value => items@[i as int]));
                    assert(rest[0] == items@[i as int]);
                    assert(rest.subrange(1, rest.len() as int) =~= items@.subrange(i + 1, n as int));
                }
                match validate_json_value(&items[i], depth + 1) {
                    Err(e) => {
                        proof {
                            assert(settings_items_check(rest, depth as nat + 1) == Err::<(), ValidationError>(e));
                        }
                        return Err(e);
                    },
                    Ok(()) => {},
                }
                i = i + 1;
            }
            proof {
                assert(items@.subrange(n as int, n as int) =~= Seq::<JsonValue>::empty());
            }
            Ok(())
        },
        JsonValue::Object(members) => {
            validate_collection_len(members.len())?;
            let n = members.len();
            let mut i: usize = 0;
            proof {
                assert(members@.subrange(0, n as int) =~= members@);
            }
            while i < n
                invariant
                    n == members@.len(),
                    i <= n,
                    depth <= MAX_SETTINGS_DEPTH,
                    *value == JsonValue::Object(*members),
                    settings_value_check(*value, depth as nat) == settings_members_check(members@, depth as nat + 1),
                    settings_members_check(members@, depth as nat + 1) == settings_members_check(
                        members@.subrange(i as int, n as int),
                        depth as nat + 1,
                    ),
                decreases n - i,
            {
                let ghost rest = members@.subrange(i as int, n as int);
                proof {
                    assert(decreases_to!(*value => members@[i as int].value));
                    assert(rest[0] == members@[i as int]);
                    assert(rest.subrange(1, rest.len() as int) =~= members@.subrange(i + 1, n as int));
                }
                match validate_string("widget setting key", members[i].key.as_str(), false) {
                    Err(e) => {
                        proof {
                            assert(settings_members_check(rest, depth as nat + 1) == Err::<(), ValidationError>(e));
                        }
                        return Err(e);
                    },
                    Ok(()) => {},
                }
                match validate_json_value(&members[i].value, depth + 1) {
                    Err(e) => {
                        proof {
                            assert(settings_members_check(rest, depth as nat + 1) == Err::<(), ValidationError>(e));
                        }
                        return Err(e);
                    },
                    Ok(()) => {},
                }
                i = i + 1;
            }
            proof {
                assert(members@.subrange(n as int, n as int) =~= Seq::<JsonMember>::empty());
            }
            Ok(())
        },
        _ => Ok(()),
    }
}

} // verus!
