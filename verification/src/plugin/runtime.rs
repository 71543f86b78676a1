//! Host-side rules of the plugin runtime: bounded diagnostics, package
//! verification and checks on sandboxed decoder output.

use vstd::prelude::*;
use sha2::Digest;
use vstd::string::StringExecFns;

use super::manifest::{fail_if, outcome, package_check, then, GamePluginManifest, GamePluginPackage, ManifestError, PluginRuntime};
use super::text::utf8;
use crate::adapter::{is_valid_adapter_id, valid_adapter_id};
use crate::telemetry::state::{TelemetryEvent, TelemetryUpdate};

verus! {

/// Longest diagnostic message, in bytes.
pub const MAX_WASM_ERROR_BYTES: usize = 512;
/// Longest event name, in bytes.
pub const MAX_EVENT_NAME_BYTES: usize = 128;
/// Longest session identifier, in bytes.
pub const MAX_SESSION_ID_BYTES: usize = 256;
/// Maximum non-secret plugin discovery failures exposed in one diagnostic sample.
pub const MAX_PLUGIN_LOAD_ISSUES: usize = 32;
/// Maximum number of external decoders loaded into one Host process.
pub const MAX_INSTALLED_GAME_PLUGINS: usize = 16;
/// Maximum on-disk package size, in bytes.
pub const MAX_PLUGIN_PACKAGE_BYTES: u64 = 4194304;
/// Longest Base64 text that can decode to a module within the size limit.
pub const MAX_MODULE_BASE64_BYTES: usize = 2796207;
/// Maximum serialized decoder response copied out of guest memory.
pub const MAX_PLUGIN_OUTPUT_BYTES: usize = 262144;

/// Encoding `a` then `b` as UTF-8 gives the encoding of `a` followed by `b`'s.
pub proof fn lemma_utf8_concat(a: Seq<char>, b: Seq<char>)
    ensures
        utf8(a + b) == utf8(a) + utf8(b),
    decreases a.len(),
{
    if a.len() == 0 {
        assert(a + b =~= b);
        assert(utf8(a) =~= Seq::<u8>::empty());
        assert(utf8(a) + utf8(b) =~= utf8(b));
    } else {
        assert((a + b).drop_first() =~= a.drop_first() + b);
        assert((a + b)[0] == a[0]);
        lemma_utf8_concat(a.drop_first(), b);
        assert(utf8(a + b) =~= utf8(a) + utf8(b));
    }
}

/// The largest character boundary of `bytes` at or below `end`.
pub open spec fn boundary_at_or_below(bytes: Seq<u8>, end: int) -> int
    decreases end,
{
    if end <= 0 {
        0
    } else if vstd::utf8::is_char_boundary(bytes, end) {
        end
    } else {
        boundary_at_or_below(bytes, end - 1)
    }
}

/// Sandboxed module validation or execution failure.
#[derive(Debug, Clone, PartialEq, Eq)]
pub struct WasmPluginError {
    message: String,
}

impl WasmPluginError {
    /// The failure's message.
    pub closed spec fn text(&self) -> Seq<char> {
        self.message@
    }

    /// Renders the diagnostic message.
    pub fn to_string(&self) -> (s: String)
        ensures
            s@ == self.text(),
    {
        self.message.clone()
    }
}

/// A diagnostic with a fixed message short enough to keep whole.
pub(crate) fn fixed_error(text: &str) -> (e: WasmPluginError)
    ensures
        e.text() == text@,
{
    WasmPluginError { message: String::from_str(text) }
}

/// Whether `m` is what a diagnostic keeps of `original`: all of it when it
/// fits in 512 bytes, otherwise the longest whole-character prefix of at
/// most 509 bytes followed by `...`.
pub open spec fn bounded_message(original: Seq<char>, m: Seq<char>) -> bool {
    let bytes = utf8(original);
    if bytes.len() <= MAX_WASM_ERROR_BYTES {
        m == original
    } else {
        exists|prefix: Seq<char>|
            #![trigger utf8(prefix)]
            utf8(prefix) == bytes.subrange(0, boundary_at_or_below(bytes, 509)) && m == prefix + "..."@
    }
}

/// Builds a diagnostic, cutting an overlong message at a character boundary
/// so that it fits in 512 bytes with a trailing `...`.
pub fn wasm_error(message: String) -> (e: WasmPluginError)
    ensures
        bounded_message(message@, e.text()),
        utf8(e.text()).len() <= MAX_WASM_ERROR_BYTES,
{
    let s = message.as_str();
    let len = s.as_bytes().len();
    if len <= MAX_WASM_ERROR_BYTES {
        assert(utf8(message@).len() == len);
        return WasmPluginError { message };
    }
    let ghost bytes = utf8(message@);
    proof {
        vstd::utf8::encode_utf8_valid_utf8(message@);
    }
    let mut end: usize = 509;
    while end > 0 && !s.is_char_boundary(end)
        invariant
            end <= 509,
            bytes == utf8(s@),
            bytes.len() > 512,
            vstd::utf8::valid_utf8(bytes),
            boundary_at_or_below(bytes, end as int) == boundary_at_or_below(bytes, 509),
        decreases end,
    {
        end = end - 1;
    }
    assert(vstd::utf8::is_char_boundary(bytes, end as int)) by {
        if end == 0 {
        }
    }
    let (head, _) = s.split_at(end);
    let mut text = String::from_str(head);
    proof {
        reveal_strlit("...");
        let three: Seq<char> = "..."@;
        assert(vstd::string::is_ascii("...")) by {
            reveal_strlit("...");
        }
        vstd::string::is_ascii_spec_bytes("...");
        assert(utf8(three).len() == 3);
        lemma_utf8_concat(head@, three);
        assert(utf8(head@) == bytes.subrange(0, end as int));
        assert(bounded_message(message@, head@ + three));
    }
    text.append("...");
    WasmPluginError { message: text }
}

/// Whether `bytes` form a safe event name: one to 128 lowercase letters,
/// digits, dots, underscores and hyphens, not starting or ending with a dot
/// and without two dots in a row.
pub open spec fn event_name_ok(bytes: Seq<u8>) -> bool {
    &&& 0 < bytes.len() <= MAX_EVENT_NAME_BYTES
    &&& bytes[0] != 0x2e
    &&& bytes.last() != 0x2e
    &&& forall|i: int| 0 < i < bytes.len() && #[trigger] bytes[i] == 0x2e ==> bytes[i - 1] != 0x2e
    &&& forall|i: int| 0 <= i < bytes.len() ==> {
        let b = #[trigger] bytes[i];
        (0x61 <= b && b <= 0x7a) || (0x30 <= b && b <= 0x39) || b == 0x2e || b == 0x5f || b == 0x2d
    }
}

/// Whether `value` is a safe event name.
pub fn valid_event_name(value: &str) -> (r: bool)
    ensures
        r == event_name_ok(utf8(value@)),
{
    let b = value.as_bytes();
    let n = b.len();
    if n == 0 || n > MAX_EVENT_NAME_BYTES || b[0] == 0x2e || b[n - 1] == 0x2e {
        return false;
    }
    let mut i: usize = 0;
    while i < n
        invariant
            n == b@.len(),
            b@ == utf8(value@),
            i <= n,
            forall|j: int| 0 < j < i && #[trigger] b@[j] == 0x2e ==> b@[j - 1] != 0x2e,
            forall|j: int| 0 <= j < i ==> {
                let c = #[trigger] b@[j];
                (0x61 <= c && c <= 0x7a) || (0x30 <= c && c <= 0x39) || c == 0x2e || c == 0x5f || c == 0x2d
            },
        decreases n - i,
    {
        let c = b[i];
        if !((c >= 0x61 && c <= 0x7a) || (c >= 0x30 && c <= 0x39) || c == 0x2e || c == 0x5f || c == 0x2d) {
            return false;
        }
        if c == 0x2e && i > 0 && b[i - 1] == 0x2e {
            return false;
        }
        i = i + 1;
    }
    true
}

/// Converts a guest-reported size or offset, rejecting a negative one.
pub fn non_negative(value: i32, field: &str) -> (r: Result<usize, WasmPluginError>)
    ensures
        match r {
            Ok(n) => value >= 0 && n == value,
            Err(e) => value < 0 && e.text() == "guest "@ + field@ + " is negative"@,
        },
{
    if value >= 0 {
        Ok(value as usize)
    } else {
        let mut text = String::from_str("guest ");
        text.append(field);
        text.append(" is negative");
        Err(WasmPluginError { message: text })
    }
}

/// What a decoder's return value means: zero is an unrecognized datagram,
/// a negative value a rejected one, otherwise the output length, which must
/// not exceed 256 KiB.
pub open spec fn decode_result_of(result: i32) -> Result<usize, Seq<char>> {
    if result == 0 {
        Err("datagram was not recognized"@)
    } else if result < 0 {
        Err("decoder rejected the recognized datagram"@)
    } else if result > MAX_PLUGIN_OUTPUT_BYTES {
        Err("decoder output exceeds the 256 KiB limit"@)
    } else {
        Ok(result as usize)
    }
}

/// Interprets a decoder's return value.
pub fn decode_result(result: i32) -> (r: Result<usize, WasmPluginError>)
    ensures
        match r {
            Ok(n) => decode_result_of(result) == Ok::<usize, Seq<char>>(n),
            Err(e) => decode_result_of(result) == Err::<usize, Seq<char>>(e.text()),
        },
{
    if result == 0 {
        return Err(WasmPluginError { message: String::from_str("datagram was not recognized") });
    }
    if result < 0 {
        return Err(WasmPluginError { message: String::from_str("decoder rejected the recognized datagram") });
    }
    let len = result as usize;
    if len > MAX_PLUGIN_OUTPUT_BYTES {
        return Err(WasmPluginError { message: String::from_str("decoder output exceeds the 256 KiB limit") });
    }
    Ok(len)
}

/// Decoder output copied from sandbox memory after one recognized datagram.
#[derive(Debug, PartialEq)]
pub struct PluginDecodeOutput {
    /// Decoder output contract version.
    pub schema_version: u16,
    /// Partial canonical state updates.
    pub updates: Vec<TelemetryUpdate>,
    /// Reliable canonical events.
    pub events: Vec<TelemetryEvent>,
}

/// What checking a decoder response's version and sizes gives.
pub open spec fn output_bounds_of(o: PluginDecodeOutput) -> Result<(), Seq<char>> {
    if o.schema_version != 1 {
        Err("decoder output schema "@ + crate::text::decimal(o.schema_version as nat) + " is unsupported; expected 1"@)
    } else if o.updates@.len() > 8 {
        Err("decoder emitted more than 8 updates"@)
    } else if o.events@.len() > 16 {
        Err("decoder emitted more than 16 events"@)
    } else {
        Ok(())
    }
}

impl PluginDecodeOutput {
    /// Checks the decoder response version and bounded collection sizes.
    pub fn validate_bounds(&self) -> (r: Result<(), ManifestError>)
        ensures
            outcome(r) == output_bounds_of(*self),
    {
        if self.schema_version != 1 {
            let mut text = String::from_str("decoder output schema ");
            text.append(crate::text::render_decimal(self.schema_version as u64).as_str());
            text.append(" is unsupported; expected 1");
            return Err(ManifestError::new(text));
        }
        if self.updates.len() > 8 {
            return Err(ManifestError::new(String::from_str("decoder emitted more than 8 updates")));
        }
        if self.events.len() > 16 {
            return Err(ManifestError::new(String::from_str("decoder emitted more than 16 events")));
        }
        Ok(())
    }
}

/// Whether one update keeps its session id within 1..=256 bytes.
pub open spec fn session_id_ok(u: TelemetryUpdate) -> bool {
    u.session_id matches Some(s) ==> (0 < utf8(s@).len() && utf8(s@).len() <= MAX_SESSION_ID_BYTES)
}

/// Whether every extension value of one update uses the plugin's namespace.
pub open spec fn namespaces_ok(u: TelemetryUpdate, plugin_id: Seq<char>) -> bool {
    forall|i: int| 0 <= i < u.extensions@.len() ==> (#[trigger] u.extensions@[i]).namespace@ == plugin_id
}

/// What checking one update gives: its session id, then its namespaces.
pub open spec fn update_check(u: TelemetryUpdate, plugin_id: Seq<char>) -> Result<(), Seq<char>> {
    if !session_id_ok(u) {
        Err("decoder session id is outside the supported range"@)
    } else if !namespaces_ok(u, plugin_id) {
        Err("decoder extension values must use the plugin id as their namespace"@)
    } else {
        Ok(())
    }
}

/// What checking the updates from the first up to `n` gives.
pub open spec fn updates_prefix_check(us: Seq<TelemetryUpdate>, plugin_id: Seq<char>, n: int) -> Result<(), Seq<char>>
    decreases n,
{
    if n <= 0 {
        Ok(())
    } else {
        then(updates_prefix_check(us, plugin_id, n - 1), update_check(us[n - 1], plugin_id))
    }
}

/// What checking the event names from the first up to `n` gives.
pub open spec fn events_prefix_check(es: Seq<TelemetryEvent>, n: int) -> Result<(), Seq<char>>
    decreases n,
{
    if n <= 0 {
        Ok(())
    } else {
        then(events_prefix_check(es, n - 1), fail_if(!event_name_ok(utf8(es[n - 1].name@)), "decoder event name is invalid"@))
    }
}

/// What checking a decoder response against the plugin's rules gives: in
/// order, every update's session id and namespaces, then every event name.
pub open spec fn output_semantics_of(o: PluginDecodeOutput, plugin_id: Seq<char>) -> Result<(), Seq<char>> {
    then(updates_prefix_check(o.updates@, plugin_id, o.updates@.len() as int), events_prefix_check(o.events@, o.events@.len() as int))
}

proof fn lemma_updates_prefix_stops(us: Seq<TelemetryUpdate>, plugin_id: Seq<char>, k: int, n: int)
    requires
        0 <= k <= n,
        updates_prefix_check(us, plugin_id, k) is Err,
    ensures
        updates_prefix_check(us, plugin_id, n) == updates_prefix_check(us, plugin_id, k),
    decreases n - k,
{
    if n > k {
        lemma_updates_prefix_stops(us, plugin_id, k, n - 1);
    }
}

proof fn lemma_events_prefix_stops(es: Seq<TelemetryEvent>, k: int, n: int)
    requires
        0 <= k <= n,
        events_prefix_check(es, k) is Err,
    ensures
        events_prefix_check(es, n) == events_prefix_check(es, k),
    decreases n - k,
{
    if n > k {
        lemma_events_prefix_stops(es, k, n - 1);
    }
}

fn update_session_ok(u: &TelemetryUpdate) -> (b: bool)
    ensures
        b == session_id_ok(*u),
{
    match &u.session_id {
        None => true,
        Some(s) => {
            let n = s.as_str().as_bytes().len();
            n > 0 && n <= MAX_SESSION_ID_BYTES
        },
    }
}

fn update_namespaces_ok(u: &TelemetryUpdate, plugin_id: &String) -> (b: bool)
    ensures
        b == namespaces_ok(*u, plugin_id@),
{
    let mut i: usize = 0;
    while i < u.extensions.len()
        invariant
            i <= u.extensions@.len(),
            forall|j: int| 0 <= j < i ==> (#[trigger] u.extensions@[j]).namespace@ == plugin_id@,
        decreases u.extensions@.len() - i,
    {
        if u.extensions[i].namespace != *plugin_id {
            return false;
        }
        i = i + 1;
    }
    true
}

/// Checks a decoder response against the plugin's namespace and naming rules.
pub fn validate_output_semantics(output: &PluginDecodeOutput, plugin_id: &str) -> (r: Result<(), WasmPluginError>)
    ensures
        match r {
            Ok(()) => output_semantics_of(*output, plugin_id@) == Ok::<(), Seq<char>>(()),
            Err(e) => output_semantics_of(*output, plugin_id@) == Err::<(), Seq<char>>(e.text()),
        },
{
    let id = String::from_str(plugin_id);
    let us = &output.updates;
    let n = us.len();
    let mut k: usize = 0;
    while k < n
        invariant
            n == us@.len(),
            us@ == output.updates@,
            k <= n,
            id@ == plugin_id@,
            updates_prefix_check(us@, plugin_id@, k as int) == Ok::<(), Seq<char>>(()),
        decreases n - k,
    {
        let session_ok = update_session_ok(&us[k]);
        if !session_ok {
            proof {
                assert(update_check(us@[k as int], plugin_id@) == Err::<(), Seq<char>>("decoder session id is outside the supported range"@));
                assert(updates_prefix_check(us@, plugin_id@, k + 1) == Err::<(), Seq<char>>("decoder session id is outside the supported range"@));
                lemma_updates_prefix_stops(us@, plugin_id@, k + 1, n as int);
            }
            return Err(WasmPluginError { message: String::from_str("decoder session id is outside the supported range") });
        }
        let namespace_ok = update_namespaces_ok(&us[k], &id);
        if !namespace_ok {
            proof {
                lemma_updates_prefix_stops(us@, plugin_id@, k + 1, n as int);
            }
            return Err(WasmPluginError {
                message: String::from_str("decoder extension values must use the plugin id as their namespace"),
            });
        }
        k = k + 1;
    }
    let es = &output.events;
    let m = es.len();
    let mut k: usize = 0;
    while k < m
        invariant
            m == es@.len(),
            es@ == output.events@,
            n == us@.len(),
            us@ == output.updates@,
            k <= m,
            updates_prefix_check(us@, plugin_id@, n as int) == Ok::<(), Seq<char>>(()),
            events_prefix_check(es@, k as int) == Ok::<(), Seq<char>>(()),
        decreases m - k,
    {
        if !valid_event_name(es[k].name.as_str()) {
            proof {
                lemma_events_prefix_stops(es@, k + 1, m as int);
            }
            return Err(WasmPluginError { message: String::from_str("decoder event name is invalid") });
        }
        k = k + 1;
    }
    Ok(())
}

/// Non-secret plugin discovery failure that does not prevent Host startup.
#[derive(Debug, Clone, PartialEq, Eq)]
pub struct PluginLoadIssue {
    /// Directory or parsed plugin id when safely available.
    pub plugin_id: Option<String>,
    /// Sanitized actionable reason without local paths or package bytes.
    pub message: String,
}

/// Records a discovery issue unless 32 are already recorded.
pub fn push_issue(issues: &mut Vec<PluginLoadIssue>, issue: PluginLoadIssue)
    ensures
        old(issues)@.len() < MAX_PLUGIN_LOAD_ISSUES ==> final(issues)@ == old(issues)@.push(issue),
        old(issues)@.len() >= MAX_PLUGIN_LOAD_ISSUES ==> final(issues)@ == old(issues)@,
{
    if issues.len() < MAX_PLUGIN_LOAD_ISSUES {
        issues.push(issue);
    }
}

/// Starting from at most 32 issues, pushing never collects more than 32.
pub proof fn law_issue_collection_is_bounded(before: Seq<PluginLoadIssue>, issue: PluginLoadIssue, after: Seq<PluginLoadIssue>)
    requires
        before.len() <= MAX_PLUGIN_LOAD_ISSUES,
        before.len() < MAX_PLUGIN_LOAD_ISSUES ==> after == before.push(issue),
        before.len() >= MAX_PLUGIN_LOAD_ISSUES ==> after == before,
    ensures
        after.len() <= MAX_PLUGIN_LOAD_ISSUES,
        after.len() >= before.len(),
{
}

/// The directory name itself when it is a valid plugin id.
pub fn safe_directory_id(value: &str) -> (r: Option<String>)
    ensures
        match r {
            Some(id) => valid_adapter_id(utf8(value@)) && id@ == value@,
            None => !valid_adapter_id(utf8(value@)),
        },
{
    if is_valid_adapter_id(value) {
        Some(String::from_str(value))
    } else {
        None
    }
}

/// Whether a package file name carries the `.osd-plugin` extension: it ends
/// in `.osd-plugin` after a non-empty stem.
pub open spec fn package_extension_ok(name: Seq<char>) -> bool {
    let suffix = ".osd-plugin"@;
    name.len() > suffix.len() && name.subrange(name.len() - suffix.len(), name.len() as int) == suffix
}

/// Package validation or filesystem error with sanitized context.
#[derive(Debug, Clone, PartialEq, Eq)]
pub struct PluginPackageError {
    message: String,
}

impl PluginPackageError {
    /// The failure's message.
    pub closed spec fn text(&self) -> Seq<char> {
        self.message@
    }

    /// A failure with the given message.
    pub fn new(message: String) -> (e: PluginPackageError)
        ensures
            e.text() == message@,
    {
        PluginPackageError { message }
    }

    /// Renders the failure's message.
    pub fn to_string(&self) -> (s: String)
        ensures
            s@ == self.text(),
    {
        self.message.clone()
    }
}

fn package_error(text: &str) -> (e: PluginPackageError)
    ensures
        e.text() == text@,
{
    PluginPackageError { message: String::from_str(text) }
}

/// Requires the canonical `.osd-plugin` extension on a package file name.
pub fn ensure_plugin_package_extension(file_name: Option<&str>) -> (r: Result<(), PluginPackageError>)
    ensures
        r is Ok <==> (file_name matches Some(name) && package_extension_ok(name@)),
        r matches Err(e) ==> e.text() == "plugin package filename must end in .osd-plugin"@,
{
    proof {
        reveal_strlit(".osd-plugin");
    }
    let ok = match file_name {
        None => false,
        Some(name) => ends_with_osd_plugin(name),
    };
    if ok {
        Ok(())
    } else {
        Err(package_error("plugin package filename must end in .osd-plugin"))
    }
}

fn ends_with_osd_plugin(name: &str) -> (b: bool)
    ensures
        b == package_extension_ok(name@),
{
    proof {
        reveal_strlit(".osd-plugin");
    }
    let suffix = ".osd-plugin";
    let mut chars: Vec<char> = Vec::new();
    for c in it: name.chars()
        invariant
            it.seq() == name@,
            chars@ == name@.subrange(0, it.index() as int),
    {
        chars.push(c);
    }
    proof {
        assert(chars@ =~= name@);
    }
    let mut expected: Vec<char> = Vec::new();
    for c in it: suffix.chars()
        invariant
            it.seq() == suffix@,
            expected@ == suffix@.subrange(0, it.index() as int),
    {
        expected.push(c);
    }
    proof {
        assert(expected@ =~= suffix@);
    }
    let n = chars.len();
    let m = expected.len();
    if n <= m {
        return false;
    }
    let mut i: usize = 0;
    while i < m
        invariant
            n == chars@.len(),
            m == expected@.len(),
            n > m,
            i <= m,
            chars@ == name@,
            expected@ == suffix@,
            suffix@ == ".osd-plugin"@,
            forall|j: int| 0 <= j < i ==> chars@[n - m + j] == expected@[j],
        decreases m - i,
    {
        if chars[n - m + i] != expected[i] {
            proof {
                reveal_strlit(".osd-plugin");
                assert(name@.subrange(n - m, n as int)[i as int] != suffix@[i as int]);
            }
            return false;
        }
        i = i + 1;
    }
    proof {
        reveal_strlit(".osd-plugin");
        assert(name@.subrange(n - m, n as int) =~= suffix@);
    }
    true
}

/// The bytes that Base64 text decodes to under the standard alphabet with
/// padding, or `None` when it is not valid Base64.
pub uninterp spec fn base64_standard_decode(input: Seq<u8>) -> Option<Seq<u8>>;

/// Decodes `input` with `base64::engine::general_purpose::STANDARD`.
#[verifier::external_body]
fn decode_base64(input: &[u8]) -> (r: Option<Vec<u8>>)
    ensures
        match r {
            Some(v) => base64_standard_decode(input@) == Some(v@),
            None => base64_standard_decode(input@) is None,
        },
{
    match base64::Engine::decode(&base64::engine::general_purpose::STANDARD, input) {
        Ok(bytes) => Some(bytes),
        Err(_) => None,
    }
}

/// The lowercase hexadecimal SHA-256 digest of `data`.
pub uninterp spec fn sha256_hex_digest(data: Seq<u8>) -> Seq<char>;

/// Computes the SHA-256 digest of `data` with `sha2::Sha256` and renders it
/// as 64 lowercase hexadecimal digits.
#[verifier::external_body]
fn module_sha256(data: &[u8]) -> (r: String)
    ensures
        r@ == sha256_hex_digest(data@),
{
    format!("{:x}", sha2::Sha256::digest(data))
}

/// Whether a module's bytes hash to the digest a manifest declares.
pub fn module_matches(module: &[u8], sha256: &str) -> (b: bool)
    ensures
        b == (sha256_hex_digest(module@) == sha256@),
{
    let digest = module_sha256(module);
    digest == String::from_str(sha256)
}

/// Fully decoded package after hash and manifest validation.
#[derive(Debug, Clone)]
pub struct VerifiedPluginPackage {
    /// Validated external-plugin manifest.
    pub manifest: GamePluginManifest,
    /// Hash-matching core-WASM module.
    pub module: Vec<u8>,
}

/// What verifying a package gives, the package `package_len` bytes long and
/// its parse result given: size, parse and manifest rules, Base64 text
/// length, decoding, decoded size, runtime, then the digest.
pub open spec fn package_verdict(package_len: nat, parsed: Result<GamePluginPackage, ManifestError>) -> Result<Seq<u8>, Seq<char>> {
    if package_len > MAX_PLUGIN_PACKAGE_BYTES {
        Err("package exceeds the 4 MiB limit"@)
    } else {
        match parsed {
            Err(e) => Err(e.text()),
            Ok(p) => match package_check(p) {
                Err(m) => Err(m),
                Ok(()) => if utf8(p.module_base64@).len() > MAX_MODULE_BASE64_BYTES {
                    Err("encoded WASM module exceeds the 2 MiB limit"@)
                } else {
                    match base64_standard_decode(utf8(p.module_base64@)) {
                        None => Err("moduleBase64 is invalid"@),
                        Some(module) => if module.len() == 0 || module.len() > 2097152 {
                            Err("decoded WASM module must be within 1 byte..=2 MiB"@)
                        } else {
                            match p.manifest.runtime {
                                PluginRuntime::Wasm { sha256, .. } => if sha256_hex_digest(module) != sha256@ {
                                    Err("WASM SHA-256 does not match the manifest"@)
                                } else {
                                    Ok(module)
                                },
                                _ => Err("installable package runtime must be WASM"@),
                            }
                        },
                    }
                },
            },
        }
    }
}

/// Verifies one `.osd-plugin` envelope of `package_len` bytes whose JSON
/// parse gave `parsed`.
pub fn verify_package(package_len: u64, parsed: Result<GamePluginPackage, ManifestError>) -> (r: Result<VerifiedPluginPackage, PluginPackageError>)
    ensures
        match r {
            Ok(v) => package_verdict(package_len as nat, parsed) == Ok::<Seq<u8>, Seq<char>>(v.module@)
                && (parsed matches Ok(p) && v.manifest == p.manifest),
            Err(e) => package_verdict(package_len as nat, parsed) == Err::<Seq<u8>, Seq<char>>(e.text()),
        },
{
    if package_len > MAX_PLUGIN_PACKAGE_BYTES {
        return Err(package_error("package exceeds the 4 MiB limit"));
    }
    let package = match parsed {
        Err(e) => return Err(PluginPackageError { message: String::from_str(e.message()) }),
        Ok(p) => p,
    };
    match package.validate() {
        Ok(()) => {},
        Err(e) => return Err(PluginPackageError { message: String::from_str(e.message()) }),
    }
    if package.module_base64.as_str().as_bytes().len() > MAX_MODULE_BASE64_BYTES {
        return Err(package_error("encoded WASM module exceeds the 2 MiB limit"));
    }
    let module = match decode_base64(package.module_base64.as_str().as_bytes()) {
        None => return Err(package_error("moduleBase64 is invalid")),
        Some(module) => module,
    };
    if module.len() == 0 || module.len() > 2097152 {
        return Err(package_error("decoded WASM module must be within 1 byte..=2 MiB"));
    }
    let matches = match &package.manifest.runtime {
        PluginRuntime::Wasm { sha256, .. } => module_matches(module.as_slice(), sha256.as_str()),
        _ => return Err(package_error("installable package runtime must be WASM")),
    };
    if !matches {
        return Err(package_error("WASM SHA-256 does not match the manifest"));
    }
    Ok(VerifiedPluginPackage { manifest: package.manifest, module })
}

/// What to do with one discovered plugin directory.
#[derive(Debug, Clone, PartialEq, Eq)]
pub enum LoadDecision {
    /// Stop discovery: the installed-plugin limit is reached.
    Stop(PluginLoadIssue),
    /// Install the loaded plugin.
    Install,
    /// Skip the directory and record why.
    Skip(PluginLoadIssue),
}

/// Decides what a discovered directory contributes: the limit stops
/// discovery; a built-in id or a directory named otherwise than its
/// manifest is skipped; a load failure is recorded under the directory name
/// when it is a valid id.
pub fn admit_plugin(
    installed: usize,
    reserved_ids: &Vec<String>,
    directory_name: &str,
    loaded: Result<&GamePluginManifest, PluginPackageError>,
) -> (d: LoadDecision)
    ensures
        installed >= MAX_INSTALLED_GAME_PLUGINS ==> (d matches LoadDecision::Stop(issue) && issue.plugin_id is None
            && issue.message@ == "installed plugin limit of 16 was reached"@),
        installed < MAX_INSTALLED_GAME_PLUGINS ==> match loaded {
            Ok(m) => if exists|i: int| 0 <= i < reserved_ids@.len() && (#[trigger] reserved_ids@[i])@ == m.id@ {
                d matches LoadDecision::Skip(issue) && issue.plugin_id matches Some(id) && id@ == m.id@
                    && issue.message@ == "installed plugin conflicts with a built-in id"@
            } else if m.id@ != directory_name@ {
                d matches LoadDecision::Skip(issue) && issue.plugin_id matches Some(id) && id@ == directory_name@
                    && issue.message@ == "plugin directory does not match manifest id"@
            } else {
                d is Install
            },
            Err(e) => d matches LoadDecision::Skip(issue) && issue.message@ == e.text()
                && (valid_adapter_id(utf8(directory_name@)) ==> (issue.plugin_id matches Some(id) && id@ == directory_name@))
                && (!valid_adapter_id(utf8(directory_name@)) ==> issue.plugin_id is None),
        },
{
    if installed >= MAX_INSTALLED_GAME_PLUGINS {
        return LoadDecision::Stop(PluginLoadIssue {
            plugin_id: None,
            message: String::from_str("installed plugin limit of 16 was reached"),
        });
    }
    match loaded {
        Ok(manifest) => {
            let mut i: usize = 0;
            while i < reserved_ids.len()
                invariant
                    installed < MAX_INSTALLED_GAME_PLUGINS,
                    loaded matches Ok(m) && m == manifest,
                    i <= reserved_ids@.len(),
                    forall|j: int| 0 <= j < i ==> (#[trigger] reserved_ids@[j])@ != manifest.id@,
                decreases reserved_ids@.len() - i,
            {
                if reserved_ids[i] == manifest.id {
                    return LoadDecision::Skip(PluginLoadIssue {
                        plugin_id: Some(manifest.id.clone()),
                        message: String::from_str("installed plugin conflicts with a built-in id"),
                    });
                }
                i = i + 1;
            }
            if manifest.id != String::from_str(directory_name) {
                return LoadDecision::Skip(PluginLoadIssue {
                    plugin_id: Some(String::from_str(directory_name)),
                    message: String::from_str("plugin directory does not match manifest id"),
                });
            }
            LoadDecision::Install
        },
        Err(error) => LoadDecision::Skip(PluginLoadIssue {
            plugin_id: safe_directory_id(directory_name),
            message: error.to_string(),
        }),
    }
}


/// Largest accepted installed manifest file, in bytes.
pub const MAX_MANIFEST_BYTES: u64 = 65536;

/// Successful installation summary returned to the desktop application.
#[derive(Debug, Clone, PartialEq, Eq)]
pub struct PluginInstallReceipt {
    /// Installed stable id.
    pub id: String,
    /// Installed semantic version.
    pub version: String,
    /// Public publisher string.
    pub publisher: String,
}

/// One installed manifest and its verified module path.
#[derive(Debug, Clone)]
pub struct InstalledPlugin {
    /// Validated manifest.
    pub manifest: GamePluginManifest,
    /// Canonical module path below the plugin directory.
    pub module_file: String,
}

/// The directory of the plugin `plugin_id` directly below `plugins_root`;
/// an id that is not a valid adapter id is refused.
pub fn plugin_directory(plugins_root: &str, plugin_id: &str) -> (r: Result<String, PluginPackageError>)
    ensures
        match r {
            Ok(p) => valid_adapter_id(utf8(plugin_id@)) && p@ == crate::config::repository::path_join(
                plugins_root@,
                plugin_id@,
            ),
            Err(e) => !valid_adapter_id(utf8(plugin_id@)) && e.text() == "plugin id is invalid"@,
        },
{
    if !is_valid_adapter_id(plugin_id) {
        return Err(package_error("plugin id is invalid"));
    }
    Ok(crate::config::repository::join_path(plugins_root, plugin_id))
}

/// Refuses to install a package whose id belongs to a built-in plugin.
pub fn check_not_reserved(reserved_ids: &Vec<String>, id: &str) -> (r: Result<(), PluginPackageError>)
    ensures
        r is Ok <==> !(exists|i: int| 0 <= i < reserved_ids@.len() && (#[trigger] reserved_ids@[i])@ == id@),
        r matches Err(e) ==> e.text() == "an installed plugin cannot replace a built-in plugin"@,
{
    let target = String::from_str(id);
    let mut i: usize = 0;
    while i < reserved_ids.len()
        invariant
            i <= reserved_ids@.len(),
            target@ == id@,
            forall|j: int| 0 <= j < i ==> (#[trigger] reserved_ids@[j])@ != id@,
        decreases reserved_ids@.len() - i,
    {
        if reserved_ids[i] == target {
            return Err(package_error("an installed plugin cannot replace a built-in plugin"));
        }
        i = i + 1;
    }
    Ok(())
}

/// The summary of an installed manifest.
pub fn install_receipt(manifest: &GamePluginManifest) -> (r: PluginInstallReceipt)
    ensures
        r.id@ == manifest.id@,
        r.version@ == manifest.version@,
        r.publisher@ == manifest.publisher@,
{
    PluginInstallReceipt {
        id: String::from_str(manifest.id.as_str()),
        version: String::from_str(manifest.version.as_str()),
        publisher: String::from_str(manifest.publisher.as_str()),
    }
}

/// Refuses a package file that is not a regular file of at most 4 MiB.
pub fn check_package_file(is_file: bool, len: u64) -> (r: Result<(), PluginPackageError>)
    ensures
        r is Ok <==> (is_file && len <= MAX_PLUGIN_PACKAGE_BYTES),
        r matches Err(e) ==> e.text() == "package must be a regular file no larger than 4 MiB"@,
{
    if !is_file || len > MAX_PLUGIN_PACKAGE_BYTES {
        return Err(package_error("package must be a regular file no larger than 4 MiB"));
    }
    Ok(())
}

/// Refuses a manifest file that is not a regular file of at most 64 KiB.
pub fn check_manifest_file(is_file: bool, len: u64) -> (r: Result<(), PluginPackageError>)
    ensures
        r is Ok <==> (is_file && len <= MAX_MANIFEST_BYTES),
        r matches Err(e) ==> e.text() == "manifest must be a regular file no larger than 64 KiB"@,
{
    if !is_file || len > MAX_MANIFEST_BYTES {
        return Err(package_error("manifest must be a regular file no larger than 64 KiB"));
    }
    Ok(())
}

/// Refuses a module file that is not a regular file of 1 byte to 2 MiB.
pub fn check_module_file(is_file: bool, len: u64) -> (r: Result<(), PluginPackageError>)
    ensures
        r is Ok <==> (is_file && 0 < len && len <= 2097152),
        r matches Err(e) ==> e.text() == "WASM module must be a regular file no larger than 2 MiB"@,
{
    if !is_file || len == 0 || len > 2097152 {
        return Err(package_error("WASM module must be a regular file no larger than 2 MiB"));
    }
    Ok(())
}

/// The module file name and digest of an installed manifest, which must use
/// a WASM runtime.
pub fn installed_module(manifest: &GamePluginManifest) -> (r: Result<(String, String), PluginPackageError>)
    ensures
        match manifest.runtime {
            PluginRuntime::Wasm { module, sha256, .. } => r matches Ok((m, d)) && m@ == module@ && d@ == sha256@,
            _ => r matches Err(e) && e.text() == "installed manifest must use a WASM runtime"@,
        },
{
    match &manifest.runtime {
        PluginRuntime::Wasm { module, sha256, .. } => Ok((
            String::from_str(module.as_str()),
            String::from_str(sha256.as_str()),
        )),
        _ => Err(package_error("installed manifest must use a WASM runtime")),
    }
}

/// Accepts a read module whose digest matches the manifest's.
pub fn check_module_digest(module: &[u8], sha256: &str) -> (r: Result<(), PluginPackageError>)
    ensures
        r is Ok <==> sha256_hex_digest(module@) == sha256@,
        r matches Err(e) ==> e.text() == "WASM SHA-256 does not match the manifest"@,
{
    if !module_matches(module, sha256) {
        return Err(package_error("WASM SHA-256 does not match the manifest"));
    }
    Ok(())
}
} // verus!
