//! Game plugin manifests and packages, and the rules that validate them.

use vstd::prelude::*;
use vstd::string::StringExecFns;

use super::text::{bounded, bounded_check, utf8};
use crate::adapter::{valid_adapter_id, AdapterId};
use crate::telemetry::model::TelemetryField;
use crate::text::{decimal, render_decimal};

verus! {

/// Current game plugin manifest schema.
pub const GAME_PLUGIN_MANIFEST_VERSION: u16 = 1;
/// Current sandboxed decoder ABI.
pub const GAME_PLUGIN_ABI_VERSION: u16 = 1;
/// Current distributable package envelope schema.
pub const GAME_PLUGIN_PACKAGE_VERSION: u16 = 1;
/// Largest UDP payload accepted by the platform.
pub const MAX_PLUGIN_DATAGRAM_BYTES: u32 = 65507;
/// Maximum decoded WASM module size accepted from a package.
pub const MAX_PLUGIN_MODULE_BYTES: usize = 2097152;
/// Maximum serialized decoder response copied out of guest memory.
pub const MAX_PLUGIN_OUTPUT_BYTES: usize = 262144;
/// Maximum updates emitted for one input datagram.
pub const MAX_PLUGIN_UPDATES: usize = 8;
/// Maximum reliable events emitted for one input datagram.
pub const MAX_PLUGIN_EVENTS: usize = 16;
/// Longest short text field, in bytes.
pub const MAX_SHORT_TEXT_BYTES: usize = 128;
/// Longest description, in bytes.
pub const MAX_DESCRIPTION_BYTES: usize = 1024;
/// Most setup steps.
pub const MAX_SETUP_STEPS: usize = 16;
/// Most widgets offered by one plugin.
pub const MAX_PLUGIN_WIDGETS: usize = 32;
/// Longest plugin identifier, in bytes.
pub const MAX_PLUGIN_ID_BYTES: usize = 64;

/// The outcome of `semver::Version::parse` on `text`: `None` when the text
/// is a semantic version, otherwise the parse error's message.
pub uninterp spec fn semver_parse_outcome(text: Seq<char>) -> Option<Seq<char>>;

/// Parses `text` with `semver::Version::parse`, returning `None` when it is a
/// semantic version and otherwise the error's `Display` text.
#[verifier::external_body]
fn check_semver(text: &str) -> (r: Option<String>)
    ensures
        match r {
            None => semver_parse_outcome(text@) is None,
            Some(m) => semver_parse_outcome(text@) == Some(m@),
        },
{
    match semver::Version::parse(text) {
        Ok(_) => None,
        Err(error) => Some(error.to_string()),
    }
}

/// `first`, or `rest` when `first` passed.
pub open spec fn then(first: Result<(), Seq<char>>, rest: Result<(), Seq<char>>) -> Result<(), Seq<char>> {
    match first {
        Err(m) => Err(m),
        Ok(()) => rest,
    }
}

/// The message `m` when `failed` holds.
pub open spec fn fail_if(failed: bool, m: Seq<char>) -> Result<(), Seq<char>> {
    if failed {
        Err(m)
    } else {
        Ok(())
    }
}

/// Decoder implementation referenced by a manifest.
#[derive(Debug, Clone, PartialEq, Eq)]
pub enum PluginRuntime {
    /// Adapter compiled into the official Host.
    Builtin {
        /// Factory entrypoint resolved by the built-in registry.
        entrypoint: String,
    },
    /// Sandboxed WebAssembly adapter installed from a package.
    Wasm {
        /// Stable ABI required by the module.
        abi_version: u16,
        /// Safe package-relative module filename.
        module: String,
        /// Lowercase SHA-256 of the decoded module bytes.
        sha256: String,
    },
}

/// Upstream game or software telemetry protocol label.
#[derive(Debug, Clone, PartialEq, Eq)]
pub struct PluginProtocol {
    /// Protocol family, such as `EA UDP` or `SCS bridge`.
    pub name: String,
    /// Accepted upstream protocol versions.
    pub version: String,
}

/// Supported plugin ingress transports.
#[derive(Debug, Clone, Copy, PartialEq, Eq, Structural)]
pub enum PluginIngressKind {
    /// Datagram arrives on the single UDP listener owned by the Host.
    SharedUdp,
}

/// Host-owned transport used to deliver bytes to a decoder.
#[derive(Debug, Clone, Copy, PartialEq, Eq, Structural)]
pub struct PluginIngress {
    /// v1 transport kind.
    pub kind: PluginIngressKind,
    /// Suggested port when configuring the game or producer.
    pub default_port: u16,
    /// Decoder-specific maximum input size.
    pub max_datagram_bytes: u32,
}

/// High-level dashboard visual family.
#[derive(Debug, Clone, Copy, PartialEq, Eq, Structural)]
pub enum PluginGameFamily {
    /// Circuit/open-wheel oriented density.
    Formula,
    /// Road and hauling oriented density.
    Truck,
    /// General driving telemetry layout.
    Generic,
}

/// Built-in status widget semantics.
#[derive(Debug, Clone, Copy, PartialEq, Eq, Structural)]
pub enum PluginStatusMode {
    /// DRS/active-aero state.
    Drs,
    /// SCS bridge and job state.
    Scs,
    /// Transport freshness only.
    Generic,
}

/// Responsive layout template selected by a plugin.
#[derive(Debug, Clone, Copy, PartialEq, Eq, Structural)]
pub enum PluginLayoutPreset {
    /// Six-panel formula layout.
    Formula,
    /// Five-panel trucking layout.
    Truck,
    /// Four core telemetry panels.
    Generic,
}

/// Hexadecimal colors used for a plugin's default layout.
#[derive(Debug, Clone, PartialEq, Eq)]
pub struct PluginTheme {
    /// Dashboard background.
    pub background: String,
    /// Primary text and marks.
    pub foreground: String,
    /// Game accent color.
    pub accent: String,
    /// Warning color.
    pub warning: String,
}

/// Safe presentation values consumed by the trusted Dashboard.
#[derive(Debug, Clone, PartialEq, Eq)]
pub struct PluginPresentation {
    /// Compact tab/status label.
    pub short_name: String,
    /// Secondary label rendered next to the game name.
    pub detail: String,
    /// Broad visual family.
    pub family: PluginGameFamily,
    /// Semantics used by the built-in status widget.
    pub status_mode: PluginStatusMode,
    /// Built-in responsive placement template.
    pub layout_preset: PluginLayoutPreset,
    /// Theme values applied to a new per-game layout.
    pub theme: PluginTheme,
    /// Safe fallback for games that do not report maximum RPM.
    pub fallback_rpm_max: u16,
    /// Trusted built-in widget types offered for this game.
    pub widgets: Vec<String>,
}

/// Declarative setup workflow rendered by the desktop application.
#[derive(Debug, Clone, PartialEq, Eq)]
pub enum PluginSetup {
    /// EA F1 in-game UDP settings.
    F1Udp {
        /// Format label the user selects in game.
        format: String,
        /// Recommended game send rate.
        send_rate_hz: u16,
    },
    /// Official SCS SDK bridge installation.
    ScsSdk {
        /// Steam application id used for discovery.
        steam_app_id: u32,
        /// Expected Steam install directory name.
        directory_name: String,
    },
    /// Generic UDP producer instructions.
    Udp {
        /// Ordered concise configuration steps.
        steps: Vec<String>,
    },
    /// No setup beyond starting the producer.
    NoSetup,
}

/// Origin of a plugin visible in diagnostics and management UI.
#[derive(Debug, Clone, Copy, PartialEq, Eq, Structural)]
pub enum PluginSource {
    /// Shipped and compiled with the Host.
    Builtin,
    /// Installed in the current user's data directory.
    Installed,
}

/// Complete source-of-truth declaration for one supported game or telemetry producer.
#[derive(Debug, Clone, PartialEq, Eq)]
pub struct GamePluginManifest {
    /// Manifest schema version.
    pub schema_version: u16,
    /// Stable lowercase game/plugin identifier.
    pub id: String,
    /// Product-facing source name.
    pub name: String,
    /// Plugin implementation semantic version.
    pub version: String,
    /// Publisher shown before local installation.
    pub publisher: String,
    /// SPDX license expression or short license identifier.
    pub license: String,
    /// Concise purpose and compatibility summary.
    pub description: String,
    /// Decoder implementation selected by the Host.
    pub runtime: PluginRuntime,
    /// Human-readable upstream wire protocol information.
    pub protocol: PluginProtocol,
    /// Host-owned input transport declaration.
    pub ingress: PluginIngress,
    /// Canonical telemetry paths this decoder can produce.
    pub capabilities: Vec<TelemetryField>,
    /// Trusted Dashboard presentation configuration.
    pub presentation: PluginPresentation,
    /// Declarative setup workflow for the desktop control center.
    pub setup: PluginSetup,
}

/// Non-secret manifest subset sent to desktop and dashboard clients.
#[derive(Debug, Clone, PartialEq, Eq)]
pub struct GamePluginMetadata {
    /// Stable game/plugin identifier.
    pub id: String,
    /// Product-facing source name.
    pub name: String,
    /// Plugin implementation version.
    pub version: String,
    /// Publisher shown in diagnostics.
    pub publisher: String,
    /// Concise compatibility summary.
    pub description: String,
    /// Human-readable accepted protocol version.
    pub protocol_version: String,
    /// Host-owned transport declaration.
    pub ingress: PluginIngress,
    /// Canonical telemetry fields.
    pub capabilities: Vec<TelemetryField>,
    /// Dashboard configuration.
    pub presentation: PluginPresentation,
    /// Desktop setup workflow.
    pub setup: PluginSetup,
    /// Built-in or locally installed origin.
    pub source: PluginSource,
}

/// Single-file distributable plugin package.
#[derive(Debug, Clone, PartialEq, Eq)]
pub struct GamePluginPackage {
    /// Package envelope version.
    pub package_version: u16,
    /// Embedded external-plugin manifest.
    pub manifest: GamePluginManifest,
    /// Base64-encoded WASM module bytes.
    pub module_base64: String,
}

/// Manifest validation failure with no untrusted input echo.
#[derive(Debug, Clone, PartialEq, Eq)]
pub struct ManifestError {
    message: String,
}

impl ManifestError {
    /// The failure's message.
    pub closed spec fn text(&self) -> Seq<char> {
        self.message@
    }

    /// A failure with the given message.
    pub fn new(message: String) -> (e: ManifestError)
        ensures
            e.text() == message@,
    {
        ManifestError { message }
    }

    /// Returns the actionable bounded validation reason.
    pub fn message(&self) -> (s: &str)
        ensures
            s@ == self.text(),
    {
        self.message.as_str()
    }
}

/// What a check gives, its message taken out of the error.
pub open spec fn outcome(r: Result<(), ManifestError>) -> Result<(), Seq<char>> {
    match r {
        Ok(()) => Ok(()),
        Err(e) => Err(e.text()),
    }
}

/// What a check returning a message gives.
pub open spec fn text_outcome(r: Result<(), String>) -> Result<(), Seq<char>> {
    match r {
        Ok(()) => Ok(()),
        Err(m) => Err(m@),
    }
}

/// Whether `b` is a lowercase letter or digit.
pub open spec fn lower_or_digit(b: u8) -> bool {
    (0x61 <= b && b <= 0x7a) || (0x30 <= b && b <= 0x39)
}

/// Whether `b` is a lowercase hexadecimal digit.
pub open spec fn lower_hex(b: u8) -> bool {
    (0x30 <= b && b <= 0x39) || (0x61 <= b && b <= 0x66)
}

/// Whether `b` is a hexadecimal digit of either case.
pub open spec fn any_hex(b: u8) -> bool {
    lower_hex(b) || (0x41 <= b && b <= 0x46)
}

/// Whether `bytes` are `#` and six hexadecimal digits.
pub open spec fn hex_color(bytes: Seq<u8>) -> bool {
    bytes.len() == 7 && bytes[0] == 0x23 && forall|i: int| 1 <= i < 7 ==> any_hex(#[trigger] bytes[i])
}

/// Whether `bytes` end in `.wasm`.
pub open spec fn ends_with_wasm(bytes: Seq<u8>) -> bool {
    let n = bytes.len();
    n >= 5 && bytes[n - 5] == 0x2e && bytes[n - 4] == 0x77 && bytes[n - 3] == 0x61 && bytes[n - 2] == 0x73
        && bytes[n - 1] == 0x6d
}

/// What checking a module path gives: six to 128 bytes naming one `.wasm`
/// file, with no path separator.
///
/// Without a separator the path is one component; at six bytes or more it is
/// neither `.` nor `..`, so it is a file name whose extension is `wasm`
/// exactly when it ends in `.wasm`.
pub open spec fn module_path_check(value: Seq<char>) -> Result<(), Seq<char>> {
    let b = utf8(value);
    then(
        bounded_check("WASM module path"@, value, 6, 128),
        fail_if(
            !ends_with_wasm(b) || (exists|i: int| 0 <= i < b.len() && (#[trigger] b[i] == 0x2f || b[i] == 0x5c)),
            "WASM module must be one safe .wasm filename"@,
        ),
    )
}

/// Whether `bytes` form a dotted widget type: lowercase letters, digits,
/// hyphens and at least one dot, every dot-separated segment non-empty,
/// starting and ending with a letter or digit, without a doubled hyphen.
pub open spec fn dotted_widget_type(bytes: Seq<u8>) -> bool {
    &&& bytes.len() > 0
    &&& forall|i: int| 0 <= i < bytes.len() ==> lower_or_digit(#[trigger] bytes[i]) || bytes[i] == 0x2d || bytes[i] == 0x2e
    &&& lower_or_digit(bytes[0])
    &&& lower_or_digit(bytes.last())
    &&& forall|i: int| 0 < i < bytes.len() - 1 && #[trigger] bytes[i] == 0x2e ==> lower_or_digit(bytes[i - 1]) && lower_or_digit(bytes[i + 1])
    &&& forall|i: int| 0 < i < bytes.len() && #[trigger] bytes[i] == 0x2d ==> bytes[i - 1] != 0x2d
    &&& exists|i: int| 0 <= i < bytes.len() && #[trigger] bytes[i] == 0x2e
}

/// What checking a widget type gives.
pub open spec fn widget_type_check(value: Seq<char>) -> Result<(), Seq<char>> {
    then(
        bounded_check("widget type"@, value, 3, 96),
        fail_if(!dotted_widget_type(utf8(value)), "widget type must be a safe dotted lowercase identifier"@),
    )
}

fn message(text: &str) -> (r: Result<(), String>)
    ensures
        r matches Err(m) && m@ == text@,
{
    Err(String::from_str(text))
}

fn is_lower_or_digit(b: u8) -> (r: bool)
    ensures
        r == lower_or_digit(b),
{
    (b >= 0x61 && b <= 0x7a) || (b >= 0x30 && b <= 0x39)
}

/// Checks that a module path names one `.wasm` file.
pub fn safe_module_path(value: &str) -> (r: Result<(), String>)
    ensures
        text_outcome(r) == module_path_check(value@),
{
    bounded("WASM module path", value, 6, 128)?;
    let b = value.as_bytes();
    let n = b.len();
    let mut separator = false;
    let mut i: usize = 0;
    while i < n
        invariant
            n == b@.len(),
            b@ == utf8(value@),
            i <= n,
            separator == exists|j: int| 0 <= j < i && (#[trigger] b@[j] == 0x2f || b@[j] == 0x5c),
        decreases n - i,
    {
        if b[i] == 0x2f || b[i] == 0x5c {
            separator = true;
        }
        i = i + 1;
    }
    let wasm = n >= 5 && b[n - 5] == 0x2e && b[n - 4] == 0x77 && b[n - 3] == 0x61 && b[n - 2] == 0x73 && b[n - 1] == 0x6d;
    if !wasm || separator {
        return message("WASM module must be one safe .wasm filename");
    }
    Ok(())
}

/// Whether `value` is `#` and six hexadecimal digits.
pub fn is_hex_color(value: &str) -> (r: bool)
    ensures
        r == hex_color(utf8(value@)),
{
    let b = value.as_bytes();
    if b.len() != 7 || b[0] != 0x23 {
        return false;
    }
    let mut i: usize = 1;
    while i < 7
        invariant
            b@ == utf8(value@),
            b@.len() == 7,
            1 <= i <= 7,
            forall|j: int| 1 <= j < i ==> any_hex(#[trigger] b@[j]),
        decreases 7 - i,
    {
        let c = b[i];
        if !((c >= 0x30 && c <= 0x39) || (c >= 0x61 && c <= 0x66) || (c >= 0x41 && c <= 0x46)) {
            return false;
        }
        i = i + 1;
    }
    true
}

/// Checks a dotted widget type.
pub fn validate_widget_type(value: &str) -> (r: Result<(), String>)
    ensures
        text_outcome(r) == widget_type_check(value@),
{
    bounded("widget type", value, 3, 96)?;
    let b = value.as_bytes();
    let n = b.len();
    let mut valid = is_lower_or_digit(b[0]) && is_lower_or_digit(b[n - 1]);
    let mut dot = false;
    let mut i: usize = 0;
    while valid && i < n
        invariant
            n == b@.len(),
            b@ == utf8(value@),
            3 <= n,
            i <= n,
            valid ==> lower_or_digit(b@[0]) && lower_or_digit(b@[n - 1]),
            valid ==> forall|j: int| 0 <= j < i ==> lower_or_digit(#[trigger] b@[j]) || b@[j] == 0x2d || b@[j] == 0x2e,
            valid ==> forall|j: int| 0 < j < i && j < n - 1 && #[trigger] b@[j] == 0x2e ==> lower_or_digit(b@[j - 1]) && lower_or_digit(b@[j + 1]),
            valid ==> forall|j: int| 0 < j < i && #[trigger] b@[j] == 0x2d ==> b@[j - 1] != 0x2d,
            valid ==> dot == exists|j: int| 0 <= j < i && #[trigger] b@[j] == 0x2e,
            !valid ==> !dotted_widget_type(b@),
        decreases n - i,
    {
        let c = b[i];
        if !(is_lower_or_digit(c) || c == 0x2d || c == 0x2e) {
            valid = false;
        } else if c == 0x2e && (!is_lower_or_digit(b[i - 1]) || !is_lower_or_digit(b[i + 1])) {
            valid = false;
        } else if c == 0x2d && i > 0 && b[i - 1] == 0x2d {
            valid = false;
        } else if c == 0x2e {
            dot = true;
        }
        i = i + 1;
    }
    if !valid || !dot {
        assert(!dotted_widget_type(utf8(value@)));
        assert(widget_type_check(value@) == Err::<(), Seq<char>>("widget type must be a safe dotted lowercase identifier"@));
        return message("widget type must be a safe dotted lowercase identifier");
    }
    Ok(())
}

/// Whether some field occurs twice.
pub open spec fn has_duplicate_fields(s: Seq<TelemetryField>) -> bool {
    exists|i: int, j: int| 0 <= i < j < s.len() && s[i] == s[j]
}

fn duplicate_fields(fields: &Vec<TelemetryField>) -> (b: bool)
    ensures
        b == has_duplicate_fields(fields@),
{
    let n = fields.len();
    let mut j: usize = 0;
    while j < n
        invariant
            n == fields@.len(),
            j <= n,
            forall|a: int, c: int| 0 <= a < c < j ==> fields@[a] != fields@[c],
        decreases n - j,
    {
        let mut i: usize = 0;
        while i < j
            invariant
                n == fields@.len(),
                i <= j < n,
                forall|a: int| 0 <= a < i ==> fields@[a] != fields@[j as int],
            decreases j - i,
        {
            if fields[i].rank() == fields[j].rank() {
                proof {
                    crate::adapter::lemma_rank_identifies(fields@[i as int], fields@[j as int]);
                }
                return true;
            }
            i = i + 1;
        }
        j = j + 1;
    }
    false
}

/// What checking the widgets from the first up to `n` gives: each a valid
/// type, none repeating an earlier one.
pub open spec fn widgets_prefix_check(ws: Seq<String>, n: int) -> Result<(), Seq<char>>
    decreases n,
{
    if n <= 0 {
        Ok(())
    } else {
        then(
            widgets_prefix_check(ws, n - 1),
            then(
                widget_type_check(ws[n - 1]@),
                fail_if(exists|j: int| 0 <= j < n - 1 && #[trigger] ws[j]@ == ws[n - 1]@, "widgets contains duplicates"@),
            ),
        )
    }
}

/// Once a widget fails, later widgets do not change the outcome.
proof fn lemma_widgets_prefix_stops(ws: Seq<String>, k: int, n: int)
    requires
        0 <= k <= n,
        widgets_prefix_check(ws, k) is Err,
    ensures
        widgets_prefix_check(ws, n) == widgets_prefix_check(ws, k),
    decreases n - k,
{
    if n > k {
        lemma_widgets_prefix_stops(ws, k, n - 1);
    }
}

/// What checking a presentation gives.
pub open spec fn presentation_check(p: PluginPresentation) -> Result<(), Seq<char>> {
    then(bounded_check("short name"@, p.short_name@, 1, 32),
    then(bounded_check("presentation detail"@, p.detail@, 1, 128),
    then(fail_if(!hex_color(utf8(p.theme.background@)), "theme background must be a #RRGGBB color"@),
    then(fail_if(!hex_color(utf8(p.theme.foreground@)), "theme foreground must be a #RRGGBB color"@),
    then(fail_if(!hex_color(utf8(p.theme.accent@)), "theme accent must be a #RRGGBB color"@),
    then(fail_if(!hex_color(utf8(p.theme.warning@)), "theme warning must be a #RRGGBB color"@),
    then(fail_if(!(500 <= p.fallback_rpm_max <= 30000), "fallbackRpmMax must be within 500..=30000"@),
    then(fail_if(p.widgets@.len() == 0 || p.widgets@.len() > 32, "widgets must contain 1..=32 entries"@),
    widgets_prefix_check(p.widgets@, p.widgets@.len() as int)))))))))
}

fn same_text(a: &String, b: &String) -> (r: bool)
    ensures
        r == (a@ == b@),
{
    *a == *b
}

impl PluginPresentation {
    /// Validates the presentation values.
    pub fn validate_text(&self) -> (r: Result<(), String>)
        ensures
            text_outcome(r) == presentation_check(*self),
    {
        bounded("short name", self.short_name.as_str(), 1, 32)?;
        bounded("presentation detail", self.detail.as_str(), 1, 128)?;
        if !is_hex_color(self.theme.background.as_str()) {
            return message("theme background must be a #RRGGBB color");
        }
        if !is_hex_color(self.theme.foreground.as_str()) {
            return message("theme foreground must be a #RRGGBB color");
        }
        if !is_hex_color(self.theme.accent.as_str()) {
            return message("theme accent must be a #RRGGBB color");
        }
        if !is_hex_color(self.theme.warning.as_str()) {
            return message("theme warning must be a #RRGGBB color");
        }
        if !(500 <= self.fallback_rpm_max && self.fallback_rpm_max <= 30000) {
            return message("fallbackRpmMax must be within 500..=30000");
        }
        let n = self.widgets.len();
        if n == 0 || n > 32 {
            return message("widgets must contain 1..=32 entries");
        }
        let ws = &self.widgets;
        assert(presentation_check(*self) == widgets_prefix_check(ws@, n as int));
        let mut k: usize = 0;
        while k < n
            invariant
                n == ws@.len(),
                k <= n,
                presentation_check(*self) == widgets_prefix_check(ws@, n as int),
                widgets_prefix_check(ws@, k as int) == Ok::<(), Seq<char>>(()),
            decreases n - k,
        {
            match validate_widget_type(ws[k].as_str()) {
                Ok(()) => {},
                Err(m) => {
                    proof {
                        lemma_widgets_prefix_stops(ws@, k + 1, n as int);
                    }
                    return Err(m);
                },
            }
            let mut j: usize = 0;
            while j < k
                invariant
                    n == ws@.len(),
                    j <= k < n,
                    presentation_check(*self) == widgets_prefix_check(ws@, n as int),
                    widgets_prefix_check(ws@, k as int) == Ok::<(), Seq<char>>(()),
                    widget_type_check(ws@[k as int]@) == Ok::<(), Seq<char>>(()),
                    forall|a: int| 0 <= a < j ==> #[trigger] ws@[a]@ != ws@[k as int]@,
                decreases k - j,
            {
                if same_text(&ws[j], &ws[k]) {
                    proof {
                        assert(ws@[j as int]@ == ws@[k as int]@);
                        assert(widgets_prefix_check(ws@, k + 1) == Err::<(), Seq<char>>("widgets contains duplicates"@));
                        lemma_widgets_prefix_stops(ws@, k + 1, n as int);
                    }
                    return message("widgets contains duplicates");
                }
                j = j + 1;
            }
            k = k + 1;
        }
        Ok(())
    }
}

/// What checking the setup steps from the first up to `n` gives.
pub open spec fn steps_prefix_check(steps: Seq<String>, n: int) -> Result<(), Seq<char>>
    decreases n,
{
    if n <= 0 {
        Ok(())
    } else {
        then(steps_prefix_check(steps, n - 1), bounded_check("UDP setup step"@, steps[n - 1]@, 1, 512))
    }
}

/// Once a step fails, later steps do not change the outcome.
proof fn lemma_steps_prefix_stops(steps: Seq<String>, k: int, n: int)
    requires
        0 <= k <= n,
        steps_prefix_check(steps, k) is Err,
    ensures
        steps_prefix_check(steps, n) == steps_prefix_check(steps, k),
    decreases n - k,
{
    if n > k {
        lemma_steps_prefix_stops(steps, k, n - 1);
    }
}

/// What checking a setup workflow gives.
pub open spec fn setup_check(s: PluginSetup) -> Result<(), Seq<char>> {
    match s {
        PluginSetup::F1Udp { format, send_rate_hz } => then(
            bounded_check("F1 UDP format"@, format@, 1, 128),
            fail_if(!(1 <= send_rate_hz <= 120), "F1 sendRateHz must be within 1..=120"@),
        ),
        PluginSetup::ScsSdk { steam_app_id, directory_name } => then(
            fail_if(steam_app_id == 0, "Steam app id must be non-zero"@),
            bounded_check("SCS directory name"@, directory_name@, 1, 128),
        ),
        PluginSetup::Udp { steps } => then(
            fail_if(steps@.len() == 0 || steps@.len() > 16, "UDP setup steps must contain 1..=16 entries"@),
            steps_prefix_check(steps@, steps@.len() as int),
        ),
        PluginSetup::NoSetup => Ok(()),
    }
}

impl PluginSetup {
    /// Validates the setup workflow.
    pub fn validate_text(&self) -> (r: Result<(), String>)
        ensures
            text_outcome(r) == setup_check(*self),
    {
        match self {
            PluginSetup::F1Udp { format, send_rate_hz } => {
                bounded("F1 UDP format", format.as_str(), 1, 128)?;
                if !(1 <= *send_rate_hz && *send_rate_hz <= 120) {
                    return message("F1 sendRateHz must be within 1..=120");
                }
                Ok(())
            },
            PluginSetup::ScsSdk { steam_app_id, directory_name } => {
                if *steam_app_id == 0 {
                    return message("Steam app id must be non-zero");
                }
                bounded("SCS directory name", directory_name.as_str(), 1, 128)
            },
            PluginSetup::Udp { steps } => {
                let n = steps.len();
                if n == 0 || n > 16 {
                    return message("UDP setup steps must contain 1..=16 entries");
                }
                assert(setup_check(*self) == steps_prefix_check(steps@, n as int));
                let mut k: usize = 0;
                while k < n
                    invariant
                        n == steps@.len(),
                        k <= n,
                        setup_check(*self) == steps_prefix_check(steps@, n as int),
                        steps_prefix_check(steps@, k as int) == Ok::<(), Seq<char>>(()),
                    decreases n - k,
                {
                    match bounded("UDP setup step", steps[k].as_str(), 1, 512) {
                        Ok(()) => {},
                        Err(m) => {
                            proof {
                                lemma_steps_prefix_stops(steps@, k + 1, n as int);
                            }
                            return Err(m);
                        },
                    }
                    k = k + 1;
                }
                Ok(())
            },
            PluginSetup::NoSetup => Ok(()),
        }
    }
}

/// Whether `bytes` are 64 lowercase hexadecimal digits.
pub open spec fn sha256_hex(bytes: Seq<u8>) -> bool {
    bytes.len() == 64 && forall|i: int| 0 <= i < 64 ==> lower_hex(#[trigger] bytes[i])
}

fn is_sha256_hex(value: &str) -> (r: bool)
    ensures
        r == sha256_hex(utf8(value@)),
{
    let b = value.as_bytes();
    if b.len() != 64 {
        return false;
    }
    let mut i: usize = 0;
    while i < 64
        invariant
            b@ == utf8(value@),
            b@.len() == 64,
            i <= 64,
            forall|j: int| 0 <= j < i ==> lower_hex(#[trigger] b@[j]),
        decreases 64 - i,
    {
        let c = b[i];
        if !((c >= 0x30 && c <= 0x39) || (c >= 0x61 && c <= 0x66)) {
            return false;
        }
        i = i + 1;
    }
    true
}

/// What checking a runtime gives.
pub open spec fn runtime_check(r: PluginRuntime) -> Result<(), Seq<char>> {
    match r {
        PluginRuntime::Builtin { entrypoint } => then(
            bounded_check("builtin entrypoint"@, entrypoint@, 1, 64),
            fail_if(!valid_adapter_id(utf8(entrypoint@)), "builtin entrypoint must be a safe lowercase id"@),
        ),
        PluginRuntime::Wasm { abi_version, module, sha256 } => then(
            fail_if(abi_version != GAME_PLUGIN_ABI_VERSION, "WASM ABI "@ + decimal(abi_version as nat) + " is unsupported; expected 1"@),
            then(
                module_path_check(module@),
                fail_if(!sha256_hex(utf8(sha256@)), "runtime sha256 must be 64 lowercase hexadecimal bytes"@),
            ),
        ),
    }
}

/// What validating a manifest gives: every bounded and cross-field
/// invariant, checked in order.
pub open spec fn manifest_check(m: GamePluginManifest) -> Result<(), Seq<char>> {
    then(fail_if(m.schema_version != GAME_PLUGIN_MANIFEST_VERSION, "manifest schema "@ + decimal(m.schema_version as nat) + " is unsupported; expected 1"@),
    then(bounded_check("id"@, m.id@, 1, 64),
    then(fail_if(!valid_adapter_id(utf8(m.id@)), "id must be a safe lowercase plugin identifier"@),
    then(bounded_check("name"@, m.name@, 1, 128),
    then(bounded_check("version"@, m.version@, 1, 128),
    then(match semver_parse_outcome(m.version@) {
        None => Ok(()),
        Some(e) => Err("version is not semantic: "@ + e),
    },
    then(bounded_check("publisher"@, m.publisher@, 1, 128),
    then(bounded_check("license"@, m.license@, 1, 128),
    then(bounded_check("description"@, m.description@, 1, 1024),
    then(bounded_check("protocol name"@, m.protocol.name@, 1, 128),
    then(bounded_check("protocol version"@, m.protocol.version@, 1, 128),
    then(fail_if(m.ingress.default_port == 0, "ingress default port must be non-zero"@),
    then(fail_if(!(1 <= m.ingress.max_datagram_bytes <= MAX_PLUGIN_DATAGRAM_BYTES), "maxDatagramBytes must be within 1..=65507"@),
    then(fail_if(m.capabilities@.len() == 0, "capabilities must not be empty"@),
    then(fail_if(has_duplicate_fields(m.capabilities@), "capabilities contains duplicates"@),
    then(runtime_check(m.runtime),
    then(presentation_check(m.presentation),
    then(setup_check(m.setup),
    fail_if(m.setup is ScsSdk && !(m.runtime is Builtin), "scs_sdk setup is reserved for reviewed built-in bridge plugins"@)))))))))))))))))))
}

fn id_is_valid(value: &String) -> (r: bool)
    ensures
        r == valid_adapter_id(utf8(value@)),
{
    crate::adapter::is_valid_adapter_id(value.as_str())
}

impl GamePluginManifest {
    fn validate_runtime(&self) -> (r: Result<(), String>)
        ensures
            text_outcome(r) == runtime_check(self.runtime),
    {
        match &self.runtime {
            PluginRuntime::Builtin { entrypoint } => {
                bounded("builtin entrypoint", entrypoint.as_str(), 1, 64)?;
                if !id_is_valid(entrypoint) {
                    return message("builtin entrypoint must be a safe lowercase id");
                }
                Ok(())
            },
            PluginRuntime::Wasm { abi_version, module, sha256 } => {
                if *abi_version != GAME_PLUGIN_ABI_VERSION {
                    let mut text = String::from_str("WASM ABI ");
                    text.append(render_decimal(*abi_version as u64).as_str());
                    text.append(" is unsupported; expected 1");
                    return Err(text);
                }
                safe_module_path(module.as_str())?;
                if !is_sha256_hex(sha256.as_str()) {
                    return message("runtime sha256 must be 64 lowercase hexadecimal bytes");
                }
                Ok(())
            },
        }
    }

    /// Validates every invariant, returning the message of the first violation.
    pub fn validate_text(&self) -> (r: Result<(), String>)
        ensures
            text_outcome(r) == manifest_check(*self),
    {
        if self.schema_version != GAME_PLUGIN_MANIFEST_VERSION {
            let mut text = String::from_str("manifest schema ");
            text.append(render_decimal(self.schema_version as u64).as_str());
            text.append(" is unsupported; expected 1");
            return Err(text);
        }
        bounded("id", self.id.as_str(), 1, 64)?;
        if !id_is_valid(&self.id) {
            return message("id must be a safe lowercase plugin identifier");
        }
        bounded("name", self.name.as_str(), 1, 128)?;
        bounded("version", self.version.as_str(), 1, 128)?;
        match check_semver(self.version.as_str()) {
            None => {},
            Some(error) => {
                let mut text = String::from_str("version is not semantic: ");
                text.append(error.as_str());
                return Err(text);
            },
        }
        bounded("publisher", self.publisher.as_str(), 1, 128)?;
        bounded("license", self.license.as_str(), 1, 128)?;
        bounded("description", self.description.as_str(), 1, 1024)?;
        bounded("protocol name", self.protocol.name.as_str(), 1, 128)?;
        bounded("protocol version", self.protocol.version.as_str(), 1, 128)?;
        if self.ingress.default_port == 0 {
            return message("ingress default port must be non-zero");
        }
        if !(1 <= self.ingress.max_datagram_bytes && self.ingress.max_datagram_bytes <= MAX_PLUGIN_DATAGRAM_BYTES) {
            return message("maxDatagramBytes must be within 1..=65507");
        }
        if self.capabilities.len() == 0 {
            return message("capabilities must not be empty");
        }
        if duplicate_fields(&self.capabilities) {
            return message("capabilities contains duplicates");
        }
        self.validate_runtime()?;
        self.presentation.validate_text()?;
        self.setup.validate_text()?;
        let scs = match self.setup {
            PluginSetup::ScsSdk { .. } => true,
            _ => false,
        };
        let builtin = match self.runtime {
            PluginRuntime::Builtin { .. } => true,
            _ => false,
        };
        if scs && !builtin {
            return message("scs_sdk setup is reserved for reviewed built-in bridge plugins");
        }
        Ok(())
    }

    /// Validates every bounded and cross-field manifest invariant.
    pub fn validate(&self) -> (r: Result<(), ManifestError>)
        ensures
            outcome(r) == manifest_check(*self),
    {
        match self.validate_text() {
            Ok(()) => Ok(()),
            Err(message) => Err(ManifestError::new(message)),
        }
    }

    /// Builds the public, non-secret metadata used by Host clients.
    pub fn metadata(&self, source: PluginSource) -> (m: GamePluginMetadata)
        ensures
            m.id@ == self.id@,
            m.name@ == self.name@,
            m.version@ == self.version@,
            m.publisher@ == self.publisher@,
            m.description@ == self.description@,
            m.protocol_version@ == self.protocol.version@,
            m.ingress == self.ingress,
            m.capabilities@ == self.capabilities@,
            m.source == source,
    {
        GamePluginMetadata {
            id: self.id.clone(),
            name: self.name.clone(),
            version: self.version.clone(),
            publisher: self.publisher.clone(),
            description: self.description.clone(),
            protocol_version: self.protocol.version.clone(),
            ingress: self.ingress,
            capabilities: copy_fields(&self.capabilities),
            presentation: self.presentation.clone(),
            setup: self.setup.clone(),
            source,
        }
    }
}

fn copy_fields(fields: &Vec<TelemetryField>) -> (v: Vec<TelemetryField>)
    ensures
        v@ == fields@,
{
    let mut v: Vec<TelemetryField> = Vec::new();
    let mut i: usize = 0;
    while i < fields.len()
        invariant
            i <= fields.len(),
            v@ == fields@.subrange(0, i as int),
        decreases fields.len() - i,
    {
        v.push(fields[i]);
        i = i + 1;
    }
    v
}

/// What validating a parsed package gives: its envelope version, its
/// manifest, and a WASM runtime.
pub open spec fn package_check(p: GamePluginPackage) -> Result<(), Seq<char>> {
    then(fail_if(p.package_version != GAME_PLUGIN_PACKAGE_VERSION, "package version "@ + decimal(p.package_version as nat) + " is unsupported; expected 1"@),
    then(manifest_check(p.manifest),
    fail_if(!(p.manifest.runtime is Wasm), "installable packages must use a WASM runtime"@)))
}

impl GamePluginPackage {
    /// Validates the manifest-level fields of a parsed package envelope;
    /// the module's Base64 and digest are checked by the installer.
    pub fn validate(&self) -> (r: Result<(), ManifestError>)
        ensures
            outcome(r) == package_check(*self),
    {
        if self.package_version != GAME_PLUGIN_PACKAGE_VERSION {
            let mut text = String::from_str("package version ");
            text.append(render_decimal(self.package_version as u64).as_str());
            text.append(" is unsupported; expected 1");
            return Err(ManifestError::new(text));
        }
        self.manifest.validate()?;
        let wasm = match self.manifest.runtime {
            PluginRuntime::Wasm { .. } => true,
            _ => false,
        };
        if !wasm {
            return Err(ManifestError::new(String::from_str("installable packages must use a WASM runtime")));
        }
        Ok(())
    }
}

} // verus!
