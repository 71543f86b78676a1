//! The rules a sandboxed decoder module and each of its runs must obey:
//! what is checked before a module is loaded, how guest-reported sizes are
//! interpreted, the shape bounds of its JSON response, and how an accepted
//! response is stamped and handed on.
use vstd::prelude::*;
use vstd::string::StringExecFns;

use super::manifest::{manifest_check, GamePluginManifest, PluginRuntime, MAX_PLUGIN_MODULE_BYTES};
use super::runtime::{
    bounded_message, fixed_error, output_bounds_of, output_semantics_of, validate_output_semantics, wasm_error,
    PluginDecodeOutput, WasmPluginError,
};
use super::text::utf8;
use crate::adapter::{valid_adapter_id, AdapterDescriptor, AdapterId, AdapterOutput, CapabilitySet};
use crate::config::json::{JsonMember, JsonValue};
use crate::telemetry::model::MonotonicTimestamp;
use crate::telemetry::state::{TelemetryEvent, TelemetryUpdate};
use crate::text::{decimal, render_decimal};

verus! {

/// Largest linear memory a decoder may use, in bytes.
pub const MAX_LINEAR_MEMORY_BYTES: usize = 4194304;

/// Largest table a decoder may use, in elements.
pub const MAX_TABLE_ELEMENTS: usize = 4096;

/// Fuel granted to one decode call.
pub const FUEL_PER_DECODE: u64 = 5000000;

/// Deepest nesting of a decoder's JSON response.
pub const MAX_OUTPUT_JSON_DEPTH: usize = 32;

/// Most JSON values in a decoder's response.
pub const MAX_OUTPUT_JSON_NODES: usize = 8192;

/// Longest string in a decoder's response, in bytes.
pub const MAX_OUTPUT_STRING_BYTES: usize = 4096;

/// Longest object key in a decoder's response, in bytes.
pub const MAX_OUTPUT_KEY_BYTES: usize = 128;

/// What checking a module request gives, before the module is compiled: the
/// manifest's rules, a WASM runtime, then a module of 1 byte to 2 MiB.
pub open spec fn module_request_verdict(m: GamePluginManifest, module_len: nat, r: Result<(), WasmPluginError>) -> bool {
    match manifest_check(m) {
        Err(message) => r matches Err(e) && bounded_message(message, e.text()),
        Ok(()) => if !(m.runtime is Wasm) {
            r matches Err(e) && e.text() == "WasmGameAdapter requires a WASM manifest"@
        } else if module_len == 0 || module_len > MAX_PLUGIN_MODULE_BYTES {
            r matches Err(e) && e.text() == "WASM module size is outside the supported range"@
        } else {
            r is Ok
        },
    }
}

/// Checks a manifest and module size before the module is compiled.
#[verifier::rlimit(40)]
pub fn check_module_request(manifest: &GamePluginManifest, module_len: usize) -> (r: Result<(), WasmPluginError>)
    ensures
        module_request_verdict(*manifest, module_len as nat, r),
{
    match manifest.validate() {
        Err(error) => return Err(wasm_error(String::from_str(error.message()))),
        Ok(()) => {},
    }
    let wasm = match manifest.runtime {
        PluginRuntime::Wasm { .. } => true,
        _ => false,
    };
    if !wasm {
        return Err(fixed_error("WasmGameAdapter requires a WASM manifest"));
    }
    if module_len == 0 || module_len > MAX_PLUGIN_MODULE_BYTES {
        return Err(fixed_error("WASM module size is outside the supported range"));
    }
    Ok(())
}

/// `i` in decimal, with a leading minus sign when negative.
pub open spec fn signed_decimal(i: int) -> Seq<char> {
    if i < 0 {
        "-"@ + decimal((-i) as nat)
    } else {
        decimal(i as nat)
    }
}

/// Checks the ABI version a module reports.
pub fn check_abi_version(actual: i32) -> (r: Result<(), WasmPluginError>)
    ensures
        actual == 1 ==> r is Ok,
        actual != 1 ==> (r matches Err(e) && bounded_message(
            "WASM decoder ABI "@ + signed_decimal(actual as int) + " is unsupported; expected 1"@,
            e.text(),
        )),
{
    if actual == 1 {
        return Ok(());
    }
    let mut text = String::from_str("WASM decoder ABI ");
    if actual < 0 {
        text.append("-");
        let magnitude: i64 = -(actual as i64);
        let digits = render_decimal(magnitude as u64);
        proof {
            assert(magnitude as u64 as nat == (-(actual as int)) as nat);
        }
        text.append(digits.as_str());
    } else {
        text.append(render_decimal(actual as u64).as_str());
    }
    text.append(" is unsupported; expected 1");
    assert(text@ == "WASM decoder ABI "@ + signed_decimal(actual as int) + " is unsupported; expected 1"@);
    Err(wasm_error(text))
}

/// Builds the descriptor of a sandboxed plugin and its datagram limit: the
/// plugin id must be a valid adapter id.
pub fn plugin_descriptor(manifest: &GamePluginManifest) -> (r: Result<(AdapterDescriptor, usize), WasmPluginError>)
    ensures
        match r {
            Ok((d, max)) => {
                &&& valid_adapter_id(utf8(manifest.id@))
                &&& d.id.text() == manifest.id@
                &&& d.display_name@ == manifest.name@
                &&& d.protocol_version@ == manifest.protocol.version@
                &&& d.capabilities.fields().to_set() == manifest.capabilities@.to_set()
                &&& max == manifest.ingress.max_datagram_bytes
            },
            Err(e) => !valid_adapter_id(utf8(manifest.id@)) && bounded_message(
                "invalid adapter id: "@ + crate::text::debug_quoted(manifest.id@),
                e.text(),
            ),
        },
{
    let id = match AdapterId::new(String::from_str(manifest.id.as_str())) {
        Ok(id) => id,
        Err(error) => return Err(wasm_error(error.to_string())),
    };
    let capabilities = CapabilitySet::from_fields(manifest.capabilities.as_slice());
    let descriptor = AdapterDescriptor::new(
        id,
        String::from_str(manifest.name.as_str()),
        String::from_str(manifest.protocol.version.as_str()),
        capabilities,
    );
    Ok((descriptor, manifest.ingress.max_datagram_bytes as usize))
}

/// Refuses a module that imports anything: a decoder gets no Host or WASI
/// functions.
pub fn check_no_imports(has_imports: bool) -> (r: Result<(), WasmPluginError>)
    ensures
        r is Ok <==> !has_imports,
        r matches Err(e) ==> e.text() == "WASM decoder must not import Host or WASI functions"@,
{
    if has_imports {
        return Err(fixed_error("WASM decoder must not import Host or WASI functions"));
    }
    Ok(())
}

/// Requires the instantiated module to export its linear memory as `memory`.
pub fn check_memory_exported(exports_memory: bool) -> (r: Result<(), WasmPluginError>)
    ensures
        r is Ok <==> exports_memory,
        r matches Err(e) ==> e.text() == "WASM decoder does not export memory"@,
{
    if !exports_memory {
        return Err(fixed_error("WASM decoder does not export memory"));
    }
    Ok(())
}

/// Refuses a datagram above the plugin's ingress limit.
pub fn check_datagram_len(len: usize, max_datagram_bytes: usize) -> (r: Result<(), WasmPluginError>)
    ensures
        r is Ok <==> len <= max_datagram_bytes,
        r matches Err(e) ==> e.text() == "datagram exceeds the plugin ingress limit"@,
{
    if len > max_datagram_bytes {
        return Err(fixed_error("datagram exceeds the plugin ingress limit"));
    }
    Ok(())
}

/// Refuses a datagram that does not fit the guest's input buffer.
pub fn check_input_fits(len: usize, capacity: usize) -> (r: Result<(), WasmPluginError>)
    ensures
        r is Ok <==> len <= capacity,
        r matches Err(e) ==> e.text() == "guest input buffer is smaller than the datagram"@,
{
    if len > capacity {
        return Err(fixed_error("guest input buffer is smaller than the datagram"));
    }
    Ok(())
}

/// The datagram length as the ABI passes it.
pub fn abi_input_len(len: usize) -> (r: Result<i32, WasmPluginError>)
    ensures
        len <= i32::MAX ==> r == Ok::<i32, WasmPluginError>(len as i32),
        len > i32::MAX ==> (r matches Err(e) && e.text() == "datagram length does not fit ABI v1"@),
{
    if len > 2147483647 {
        return Err(fixed_error("datagram length does not fit ABI v1"));
    }
    Ok(len as i32)
}

/// The capture time as the ABI passes it.
pub fn abi_timestamp(received_at: MonotonicTimestamp) -> (r: Result<i64, WasmPluginError>)
    ensures
        received_at.micros() <= i64::MAX ==> r == Ok::<i64, WasmPluginError>(received_at.micros() as i64),
        received_at.micros() > i64::MAX ==> (r matches Err(e) && e.text() == "Host timestamp does not fit ABI v1"@),
{
    let micros = received_at.as_micros();
    if micros > 9223372036854775807 {
        return Err(fixed_error("Host timestamp does not fit ABI v1"));
    }
    Ok(micros as i64)
}

/// Refuses a response longer than the guest's output buffer.
pub fn check_output_fits(len: usize, capacity: usize) -> (r: Result<(), WasmPluginError>)
    ensures
        r is Ok <==> len <= capacity,
        r matches Err(e) ==> e.text() == "decoder output exceeds its exported buffer"@,
{
    if len > capacity {
        return Err(fixed_error("decoder output exceeds its exported buffer"));
    }
    Ok(())
}

/// Why a decoder's JSON response breaks a shape bound.
#[derive(Debug, Clone, Copy, PartialEq, Eq, Structural)]
pub enum ShapeFault {
    /// More than 8192 values.
    TooManyValues,
    /// Nesting deeper than 32.
    TooDeep,
    /// A string longer than 4096 bytes.
    LongString,
    /// An object key longer than 128 bytes.
    LongKey,
}

/// The message reported for each shape fault.
pub open spec fn shape_fault_text(f: ShapeFault) -> Seq<char> {
    match f {
        ShapeFault::TooManyValues => "decoder output contains too many JSON values"@,
        ShapeFault::TooDeep => "decoder output JSON nesting is too deep"@,
        ShapeFault::LongString => "decoder output contains an oversized string"@,
        ShapeFault::LongKey => "decoder output contains an oversized object key"@,
    }
}

/// Whether some key among `members` is longer than 128 bytes.
pub open spec fn has_long_key(members: Seq<JsonMember>) -> bool {
    exists|i: int| 0 <= i < members.len() && utf8((#[trigger] members[i]).key@).len() > MAX_OUTPUT_KEY_BYTES
}

/// Visiting `v` at depth `depth` after `seen` values were visited: the value
/// is counted, its depth and string length are checked, an object's keys are
/// checked in order, then its entries are visited last first, one level
/// deeper. The result is the count after the visit, or the first fault.
pub open spec fn shape_visit(v: JsonValue, depth: nat, seen: nat) -> Result<nat, ShapeFault>
    decreases v, 1nat,
{
    let count = seen + 1;
    if count > MAX_OUTPUT_JSON_NODES {
        Err(ShapeFault::TooManyValues)
    } else if depth > MAX_OUTPUT_JSON_DEPTH {
        Err(ShapeFault::TooDeep)
    } else {
        match v {
            JsonValue::String(s) => if utf8(s@).len() > MAX_OUTPUT_STRING_BYTES {
                Err(ShapeFault::LongString)
            } else {
                Ok(count)
            },
            JsonValue::Array(items) => shape_items(items@, depth + 1, count),
            JsonValue::Object(members) => if has_long_key(members@) {
                Err(ShapeFault::LongKey)
            } else {
                shape_members(members@, depth + 1, count)
            },
            _ => Ok(count),
        }
    }
}

/// Visiting array entries last first.
pub open spec fn shape_items(items: Seq<JsonValue>, depth: nat, seen: nat) -> Result<nat, ShapeFault>
    decreases items, 0nat,
{
    if items.len() == 0 {
        Ok(seen)
    } else {
        match shape_visit(items.last(), depth, seen) {
            Err(f) => Err(f),
            Ok(count) => shape_items(items.subrange(0, items.len() - 1), depth, count),
        }
    }
}

/// Visiting object member values last first.
pub open spec fn shape_members(members: Seq<JsonMember>, depth: nat, seen: nat) -> Result<nat, ShapeFault>
    decreases members, 0nat,
{
    if members.len() == 0 {
        Ok(seen)
    } else {
        match shape_visit(members.last().value, depth, seen) {
            Err(f) => Err(f),
            Ok(count) => shape_members(members.subrange(0, members.len() - 1), depth, count),
        }
    }
}

fn long_key_among(members: &Vec<JsonMember>) -> (b: bool)
    ensures
        b == has_long_key(members@),
{
    let mut i: usize = 0;
    while i < members.len()
        invariant
            i <= members@.len(),
            forall|j: int| 0 <= j < i ==> utf8((#[trigger] members@[j]).key@).len() <= MAX_OUTPUT_KEY_BYTES,
        decreases members@.len() - i,
    {
        if members[i].key.as_str().as_bytes().len() > MAX_OUTPUT_KEY_BYTES {
            return true;
        }
        i = i + 1;
    }
    false
}

fn visit_shape(value: &JsonValue, depth: usize, seen: usize) -> (r: Result<usize, ShapeFault>)
    requires
        seen <= MAX_OUTPUT_JSON_NODES,
        depth <= MAX_OUTPUT_JSON_DEPTH + 1,
    ensures
        match r {
            Ok(count) => shape_visit(*value, depth as nat, seen as nat) == Ok::<nat, ShapeFault>(count as nat)
                && count <= MAX_OUTPUT_JSON_NODES,
            Err(f) => shape_visit(*value, depth as nat, seen as nat) == Err::<nat, ShapeFault>(f),
        },
    decreases value,
{
    let count = seen + 1;
    if count > MAX_OUTPUT_JSON_NODES {
        return Err(ShapeFault::TooManyValues);
    }
    if depth > MAX_OUTPUT_JSON_DEPTH {
        return Err(ShapeFault::TooDeep);
    }
    match value {
        JsonValue::String(s) => {
            if s.as_str().as_bytes().len() > MAX_OUTPUT_STRING_BYTES {
                Err(ShapeFault::LongString)
            } else {
                Ok(count)
            }
        },
        JsonValue::Array(items) => {
            let mut k: usize = items.len();
            let mut total: usize = count;
            proof {
                assert(items@.subrange(0, k as int) =~= items@);
            }
            while k > 0
                invariant
                    k <= items@.len(),
                    total <= MAX_OUTPUT_JSON_NODES,
                    depth <= MAX_OUTPUT_JSON_DEPTH,
                    *value == JsonValue::Array(*items),
                    shape_visit(*value, depth as nat, seen as nat) == shape_items(
                        items@.subrange(0, k as int),
                        depth as nat + 1,
                        total as nat,
                    ),
                decreases k,
            {
                let ghost prefix = items@.subrange(0, k as int);
                proof {
                    assert(decreases_to!(*value => items@[k - 1]));
                    assert(prefix.last() == items@[k - 1]);
                    assert(prefix.subrange(0, prefix.len() - 1) =~= items@.subrange(0, k - 1));
                }
                match visit_shape(&items[k - 1], depth + 1, total) {
                    Err(f) => return Err(f),
                    Ok(next) => {
                        total = next;
                    },
                }
                k = k - 1;
            }
            Ok(total)
        },
        JsonValue::Object(members) => {
            if long_key_among(members) {
                return Err(ShapeFault::LongKey);
            }
            let mut k: usize = members.len();
            let mut total: usize = count;
            proof {
                assert(members@.subrange(0, k as int) =~= members@);
            }
            while k > 0
                invariant
                    k <= members@.len(),
                    total <= MAX_OUTPUT_JSON_NODES,
                    depth <= MAX_OUTPUT_JSON_DEPTH,
                    *value == JsonValue::Object(*members),
                    shape_visit(*value, depth as nat, seen as nat) == shape_members(
                        members@.subrange(0, k as int),
                        depth as nat + 1,
                        total as nat,
                    ),
                decreases k,
            {
                let ghost prefix = members@.subrange(0, k as int);
                proof {
                    assert(decreases_to!(*value => members@[k - 1].value));
                    assert(prefix.last() == members@[k - 1]);
                    assert(prefix.subrange(0, prefix.len() - 1) =~= members@.subrange(0, k - 1));
                }
                match visit_shape(&members[k - 1].value, depth + 1, total) {
                    Err(f) => return Err(f),
                    Ok(next) => {
                        total = next;
                    },
                }
                k = k - 1;
            }
            Ok(total)
        },
        _ => Ok(count),
    }
}

/// Checks the shape bounds of a decoder's JSON response, visiting values as
/// a last-in first-out work list does, from the root at depth one.
pub fn validate_json_shape(root: &JsonValue) -> (r: Result<(), WasmPluginError>)
    ensures
        match shape_visit(*root, 1, 0) {
            Ok(_) => r is Ok,
            Err(f) => r matches Err(e) && e.text() == shape_fault_text(f),
        },
{
    match visit_shape(root, 1, 0) {
        Ok(_) => Ok(()),
        Err(ShapeFault::TooManyValues) => Err(fixed_error("decoder output contains too many JSON values")),
        Err(ShapeFault::TooDeep) => Err(fixed_error("decoder output JSON nesting is too deep")),
        Err(ShapeFault::LongString) => Err(fixed_error("decoder output contains an oversized string")),
        Err(ShapeFault::LongKey) => Err(fixed_error("decoder output contains an oversized object key")),
    }
}

/// An update as the Host re-stamps it with its own capture time.
pub open spec fn update_stamped(u: TelemetryUpdate, t: MonotonicTimestamp) -> TelemetryUpdate {
    TelemetryUpdate { received_at: t, ..u }
}

/// An event as the Host re-stamps it with its own capture time.
pub open spec fn event_stamped(e: TelemetryEvent, t: MonotonicTimestamp) -> TelemetryEvent {
    TelemetryEvent { occurred_at: t, ..e }
}

/// Accepts a decoder response: its version and sizes, then its namespace
/// and naming rules; the guest's timestamps are replaced by `received_at`
/// and the updates and events are appended to `output`.
pub fn finish_decode(
    decoded: PluginDecodeOutput,
    plugin_id: &str,
    received_at: MonotonicTimestamp,
    output: &mut AdapterOutput,
) -> (r: Result<(), WasmPluginError>)
    ensures
        match output_bounds_of(decoded) {
            Err(m) => r matches Err(e) && bounded_message(m, e.text()) && *final(output) == *old(output),
            Ok(()) => match output_semantics_of(decoded, plugin_id@) {
                Err(m) => r matches Err(e) && e.text() == m && *final(output) == *old(output),
                Ok(()) => {
                    &&& r is Ok
                    &&& final(output).updates@ == old(output).updates@ + Seq::new(
                        decoded.updates@.len(),
                        |i: int| update_stamped(decoded.updates@[i], received_at),
                    )
                    &&& final(output).events@ == old(output).events@ + Seq::new(
                        decoded.events@.len(),
                        |i: int| event_stamped(decoded.events@[i], received_at),
                    )
                },
            },
        },
{
    match decoded.validate_bounds() {
        Err(error) => return Err(wasm_error(String::from_str(error.message()))),
        Ok(()) => {},
    }
    match validate_output_semantics(&decoded, plugin_id) {
        Err(e) => return Err(e),
        Ok(()) => {},
    }
    let ghost originals = decoded.updates@;
    let ghost original_events = decoded.events@;
    let mut updates = decoded.updates;
    let mut stamped: Vec<TelemetryUpdate> = Vec::new();
    let n = updates.len();
    while updates.len() > 0
        invariant
            stamped@.len() + updates@.len() == n,
            n == originals.len(),
            updates@ == originals.subrange(stamped@.len() as int, n as int),
            forall|i: int| 0 <= i < stamped@.len() ==> #[trigger] stamped@[i] == update_stamped(originals[i], received_at),
        decreases updates@.len(),
    {
        let mut u = updates.remove(0);
        u.received_at = received_at;
        stamped.push(u);
        proof {
            assert(updates@ =~= originals.subrange(stamped@.len() as int, n as int));
        }
    }
    let mut events = decoded.events;
    let mut stamped_events: Vec<TelemetryEvent> = Vec::new();
    let m = events.len();
    while events.len() > 0
        invariant
            stamped_events@.len() + events@.len() == m,
            m == original_events.len(),
            events@ == original_events.subrange(stamped_events@.len() as int, m as int),
            forall|i: int| 0 <= i < stamped_events@.len() ==> #[trigger] stamped_events@[i] == event_stamped(original_events[i], received_at),
        decreases events@.len(),
    {
        let mut e = events.remove(0);
        e.occurred_at = received_at;
        stamped_events.push(e);
        proof {
            assert(events@ =~= original_events.subrange(stamped_events@.len() as int, m as int));
        }
    }
    proof {
        assert(stamped@ =~= Seq::new(originals.len(), |i: int| update_stamped(originals[i], received_at)));
        assert(stamped_events@ =~= Seq::new(original_events.len(), |i: int| event_stamped(original_events[i], received_at)));
    }
    output.updates.append(&mut stamped);
    output.events.append(&mut stamped_events);
    Ok(())
}

} // verus!
