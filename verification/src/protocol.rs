//! Versioned wire messages exchanged between the Host and dashboard clients,
//! and the envelope rules applied before a payload is used.
use vstd::prelude::*;
use vstd::string::StringExecFns;

use crate::plugin::manifest::GamePluginMetadata;
use crate::telemetry::model::TelemetryField;
use crate::telemetry::state::{TelemetryEvent, TelemetrySnapshot};
use crate::text::{decimal, render_decimal};

verus! {

/// Current major version of the Host/browser wire protocol.
pub const PROTOCOL_VERSION: u16 = 1;

/// First message sent by a dashboard client.
#[derive(Debug, Clone, PartialEq, Eq)]
pub struct ClientHello {
    /// One-time token copied from the QR-code fragment.
    pub pairing_token: Option<String>,
    /// Previously issued device session used for reconnects.
    pub device_session: Option<String>,
    /// Human-readable bounded label shown in local device management.
    pub device_name: Option<String>,
    /// Last reliable event sequence consumed by the client.
    pub last_event_seq: Option<u64>,
    /// Requested snapshot publication frequency.
    pub snapshot_hz: u16,
}

/// Acknowledges one reliable event sequence.
#[derive(Debug, Clone, Copy, PartialEq, Eq)]
pub struct EventAckMessage {
    /// Highest contiguous event sequence consumed by the client.
    pub seq: u64,
}

/// Requests an immediate copy of the Host's latest snapshot.
#[derive(Debug, Default, Clone, Copy, PartialEq, Eq)]
pub struct SnapshotRequestMessage {}

/// Payloads accepted from a dashboard client.
#[derive(Debug, Clone, PartialEq, Eq)]
pub enum ClientPayload {
    /// Opens or resumes a paired device session.
    Hello(ClientHello),
    /// Confirms that a reliable event was consumed.
    EventAck(EventAckMessage),
    /// Requests the newest complete snapshot after a visibility or state reset.
    SnapshotRequest(SnapshotRequestMessage),
}

/// Message sent from a dashboard client to the Host.
#[derive(Debug, Clone, PartialEq, Eq)]
pub struct ClientMessage {
    /// Wire protocol major version.
    pub v: u16,
    /// Versioned message body.
    pub payload: ClientPayload,
}

impl ClientMessage {
    /// Wraps a client payload using the current protocol version.
    pub fn new(payload: ClientPayload) -> (m: ClientMessage)
        ensures
            m.v == PROTOCOL_VERSION,
            m.payload == payload,
    {
        ClientMessage { v: PROTOCOL_VERSION, payload }
    }
}

/// Host response to a successful hello.
#[derive(Debug, Clone, PartialEq, Eq)]
pub struct ServerHello {
    /// Host application version.
    pub server_version: String,
    /// Protocol version selected by the Host.
    pub protocol_version: u16,
    /// Device session issued after one-time pairing.
    pub device_session: Option<String>,
}

/// Replaceable latest telemetry state.
#[derive(Debug, Clone, PartialEq)]
pub struct SnapshotMessage {
    /// Snapshot publication sequence.
    pub seq: u64,
    /// Host-monotonic capture time in microseconds.
    pub captured_at_us: u64,
    /// Complete canonical telemetry state.
    pub data: TelemetrySnapshot,
}

/// Ordered reliable event.
#[derive(Debug, PartialEq)]
pub struct EventMessage {
    /// Reliable event sequence.
    pub seq: u64,
    /// Canonical event data.
    pub data: TelemetryEvent,
}

/// Active adapter capabilities.
#[derive(Debug, Clone, PartialEq, Eq)]
pub struct CapabilitiesMessage {
    /// Stable canonical telemetry paths.
    pub fields: Vec<TelemetryField>,
    /// Namespaced adapter extension paths.
    pub extensions: Vec<String>,
    /// Installed and built-in game plugins available to this Host.
    pub plugins: Vec<GamePluginMetadata>,
}

/// Reliable-event history can no longer satisfy the requested sequence.
#[derive(Debug, Clone, Copy, PartialEq, Eq)]
pub struct ResyncRequiredMessage {
    /// Oldest event still present in the bounded buffer.
    pub oldest_available_event_seq: u64,
    /// Newest event present when this message was built.
    pub newest_event_seq: u64,
}

/// Reason that live telemetry is not currently advancing.
#[derive(Debug, Clone, Copy, PartialEq, Eq)]
pub enum StaleReason {
    /// The game has stopped producing UDP data.
    GameDataTimeout,
    /// The adapter is not currently connected to a data source.
    DataSourceDisconnected,
    /// A new game session requires a fresh full snapshot.
    SessionChanged,
}

/// Explicit stale-state notification.
#[derive(Debug, Clone, Copy, PartialEq, Eq)]
pub struct StaleMessage {
    /// Host-monotonic time at which the state became stale.
    pub since_us: u64,
    /// Why the state is stale.
    pub reason: StaleReason,
}

/// Stable machine-readable error categories.
#[derive(Debug, Clone, Copy, PartialEq, Eq)]
pub enum ErrorCode {
    /// The client must pair or resume a device session.
    PairingRequired,
    /// A one-time pairing token was invalid.
    InvalidPairingToken,
    /// A one-time pairing token was valid but expired.
    PairingTokenExpired,
    /// The requested wire protocol version is unsupported.
    UnsupportedVersion,
    /// The message shape or value was invalid.
    InvalidMessage,
    /// The incoming message exceeded a configured bound.
    MessageTooLarge,
    /// The Host could not complete the operation.
    Internal,
}

/// Structured protocol error sent to a client.
#[derive(Debug, Clone, PartialEq, Eq)]
pub struct ErrorMessage {
    /// Stable programmatic error code.
    pub code: ErrorCode,
    /// Sanitized human-readable explanation.
    pub message: String,
    /// Whether retrying without user intervention can succeed.
    pub retryable: bool,
}

/// Payloads emitted by the Host.
#[derive(Debug, PartialEq)]
pub enum ServerPayload {
    /// Confirms pairing or session resumption.
    Hello(ServerHello),
    /// Replaceable latest telemetry state.
    Snapshot(SnapshotMessage),
    /// Ordered reliable telemetry event.
    Event(EventMessage),
    /// Fields made available by the active adapter.
    Capabilities(CapabilitiesMessage),
    /// Indicates that reliable events can no longer be replayed completely.
    ResyncRequired(ResyncRequiredMessage),
    /// Indicates that the data source is temporarily stale.
    Stale(StaleMessage),
    /// Structured failure safe to show or diagnose.
    Error(ErrorMessage),
}

/// Message sent from the Host to a dashboard client.
#[derive(Debug, PartialEq)]
pub struct ServerMessage {
    /// Wire protocol major version.
    pub v: u16,
    /// Versioned message body.
    pub payload: ServerPayload,
}

impl ServerMessage {
    /// Wraps a server payload using the current protocol version.
    pub fn new(payload: ServerPayload) -> (m: ServerMessage)
        ensures
            m.v == PROTOCOL_VERSION,
            m.payload == payload,
    {
        ServerMessage { v: PROTOCOL_VERSION, payload }
    }
}

/// Failure to decode a versioned wire message.
#[derive(Debug, Clone, PartialEq, Eq)]
pub enum WireDecodeError {
    /// The envelope uses a protocol version this build cannot interpret.
    UnsupportedVersion {
        /// Version accepted by this build.
        expected: u16,
        /// Version provided by the peer.
        actual: u16,
    },
    /// JSON or the typed message shape is invalid.
    InvalidMessage {
        /// Sanitized parser explanation; input bytes are never included.
        message: String,
    },
}

impl WireDecodeError {
    /// The failure as it is displayed.
    pub open spec fn text(&self) -> Seq<char> {
        match self {
            WireDecodeError::UnsupportedVersion { expected, actual } =>
                "unsupported protocol version "@ + decimal(*actual as nat) + "; expected "@ + decimal(*expected as nat),
            WireDecodeError::InvalidMessage { message } => "invalid protocol message: "@ + message@,
        }
    }

    /// Renders the failure for diagnostics.
    pub fn to_string(&self) -> (s: String)
        ensures
            s@ == self.text(),
    {
        match self {
            WireDecodeError::UnsupportedVersion { expected, actual } => {
                let mut s = String::from_str("unsupported protocol version ");
                s.append(render_decimal(*actual as u64).as_str());
                s.append("; expected ");
                s.append(render_decimal(*expected as u64).as_str());
                s
            },
            WireDecodeError::InvalidMessage { message } => {
                let mut s = String::from_str("invalid protocol message: ");
                s.append(message.as_str());
                s
            },
        }
    }
}

/// Whether `e` is the shape failure carrying `m`.
pub open spec fn is_invalid_message(e: WireDecodeError, m: Seq<char>) -> bool {
    e matches WireDecodeError::InvalidMessage { message } && message@ == m
}

/// The message for an envelope without a usable `v` member.
pub open spec fn missing_version_text() -> Seq<char> {
    "missing or invalid `v` field"@
}

/// The message for a `v` member that does not fit a `u16`.
pub open spec fn version_range_text() -> Seq<char> {
    "protocol version is outside the supported integer range"@
}

/// What reading the envelope version `raw` gives: its absence and a value
/// beyond `u16` are shape failures, any other version than the current one
/// is unsupported.
pub open spec fn version_verdict(raw: Option<u64>, e: WireDecodeError) -> bool {
    match raw {
        None => is_invalid_message(e, missing_version_text()),
        Some(n) => if n > u16::MAX as u64 {
            is_invalid_message(e, version_range_text())
        } else {
            e == (WireDecodeError::UnsupportedVersion { expected: PROTOCOL_VERSION, actual: n as u16 })
        },
    }
}

/// Checks the version read from a message envelope.
pub fn check_protocol_version(raw_version: Option<u64>) -> (r: Result<u16, WireDecodeError>)
    ensures
        r is Ok <==> raw_version == Some(PROTOCOL_VERSION as u64),
        r matches Ok(v) ==> v == PROTOCOL_VERSION,
        r matches Err(e) ==> version_verdict(raw_version, e),
{
    match raw_version {
        None => Err(WireDecodeError::InvalidMessage { message: String::from_str("missing or invalid `v` field") }),
        Some(n) => {
            if n > 65535 {
                Err(WireDecodeError::InvalidMessage {
                    message: String::from_str("protocol version is outside the supported integer range"),
                })
            } else if n != 1 {
                Err(WireDecodeError::UnsupportedVersion { expected: PROTOCOL_VERSION, actual: n as u16 })
            } else {
                Ok(PROTOCOL_VERSION)
            }
        },
    }
}

/// What `serde_json::from_slice::<serde_json::Value>` followed by reading the
/// `v` member as a `u64` gives for `bytes`: the parser's message when the
/// bytes are not one JSON document, otherwise the member when it is an
/// unsigned integer.
pub uninterp spec fn json_envelope_version(bytes: Seq<u8>) -> Result<Option<u64>, Seq<char>>;

/// Parses `bytes` with `serde_json::from_slice` into a `serde_json::Value`
/// and reads its `v` member with `Value::get` and `Value::as_u64`; a parse
/// failure gives the error's `Display` text. The result is named, not
/// described: it depends on the bytes alone.
#[verifier::external_body]
fn read_envelope_version(bytes: &[u8]) -> (r: Result<Option<u64>, String>)
    ensures
        envelope_view(r) == json_envelope_version(bytes@),
{
    match serde_json::from_slice::<serde_json::Value>(bytes) {
        Ok(document) => Ok(document.get("v").and_then(serde_json::Value::as_u64)),
        Err(error) => Err(error.to_string()),
    }
}

/// What decoding gives once the envelope read `envelope` and the typed
/// parse of the same document gave `typed`: the JSON failure, then the
/// version rules, then the typed failure, in that order; the payload is
/// used only after the version was accepted.
pub open spec fn envelope_verdict<P, M>(
    envelope: Result<Option<u64>, Seq<char>>,
    typed: Result<P, Seq<char>>,
    wrap: spec_fn(P) -> M,
    r: Result<M, WireDecodeError>,
) -> bool {
    match envelope {
        Err(m) => r matches Err(e) && is_invalid_message(e, m),
        Ok(raw) => if raw != Some(PROTOCOL_VERSION as u64) {
            r matches Err(e) && version_verdict(raw, e)
        } else {
            match typed {
                Ok(p) => r == Ok::<M, WireDecodeError>(wrap(p)),
                Err(m) => r matches Err(e) && is_invalid_message(e, m),
            }
        },
    }
}

/// The view of a typed parse result: its value, or its failure's text.
pub open spec fn typed_view<T>(typed: Result<T, String>) -> Result<T, Seq<char>> {
    match typed {
        Ok(p) => Ok(p),
        Err(m) => Err(m@),
    }
}

/// The view of an envelope read: its version member, or its failure's text.
pub open spec fn envelope_view(envelope: Result<Option<u64>, String>) -> Result<Option<u64>, Seq<char>> {
    match envelope {
        Ok(v) => Ok(v),
        Err(m) => Err(m@),
    }
}

/// Decides a client message from the envelope read `envelope` and the typed
/// payload parse `typed` of the same bytes.
pub fn decide_client_message(envelope: Result<Option<u64>, String>, typed: Result<ClientPayload, String>) -> (r: Result<ClientMessage, WireDecodeError>)
    ensures
        envelope_verdict(envelope_view(envelope), typed_view(typed), (|p: ClientPayload| (ClientMessage { v: PROTOCOL_VERSION, payload: p })), r),
{
    let raw = match envelope {
        Err(message) => return Err(WireDecodeError::InvalidMessage { message }),
        Ok(raw) => raw,
    };
    match check_protocol_version(raw) {
        Err(e) => return Err(e),
        Ok(_) => {},
    }
    match typed {
        Ok(payload) => Ok(ClientMessage::new(payload)),
        Err(message) => Err(WireDecodeError::InvalidMessage { message }),
    }
}

/// Decodes and validates a dashboard-to-Host message: the bytes' envelope
/// is read here, `typed` is the typed payload parse of the same bytes.
pub fn decode_client_message(bytes: &[u8], typed: Result<ClientPayload, String>) -> (r: Result<ClientMessage, WireDecodeError>)
    ensures
        envelope_verdict(json_envelope_version(bytes@), typed_view(typed), (|p: ClientPayload| (ClientMessage { v: PROTOCOL_VERSION, payload: p })), r),
{
    let envelope = read_envelope_version(bytes);
    decide_client_message(envelope, typed)
}

/// Decides a Host message from the envelope read `envelope` and the typed
/// payload parse `typed` of the same bytes.
pub fn decide_server_message(envelope: Result<Option<u64>, String>, typed: Result<ServerPayload, String>) -> (r: Result<ServerMessage, WireDecodeError>)
    ensures
        envelope_verdict(envelope_view(envelope), typed_view(typed), (|p: ServerPayload| (ServerMessage { v: PROTOCOL_VERSION, payload: p })), r),
{
    let raw = match envelope {
        Err(message) => return Err(WireDecodeError::InvalidMessage { message }),
        Ok(raw) => raw,
    };
    match check_protocol_version(raw) {
        Err(e) => return Err(e),
        Ok(_) => {},
    }
    match typed {
        Ok(payload) => Ok(ServerMessage::new(payload)),
        Err(message) => Err(WireDecodeError::InvalidMessage { message }),
    }
}

/// Decodes and validates a Host-to-dashboard message: the bytes' envelope
/// is read here, `typed` is the typed payload parse of the same bytes.
pub fn decode_server_message(bytes: &[u8], typed: Result<ServerPayload, String>) -> (r: Result<ServerMessage, WireDecodeError>)
    ensures
        envelope_verdict(json_envelope_version(bytes@), typed_view(typed), (|p: ServerPayload| (ServerMessage { v: PROTOCOL_VERSION, payload: p })), r),
{
    let envelope = read_envelope_version(bytes);
    decide_server_message(envelope, typed)
}

/// A client message whose envelope carries another version than the current
/// one is refused, and refused identically, whatever its payload parse gave:
/// the payload is never used.
pub proof fn law_version_rejected_before_payload_use(
    envelope: Result<Option<u64>, Seq<char>>,
    first: Result<ClientPayload, Seq<char>>,
    second: Result<ClientPayload, Seq<char>>,
    first_result: Result<ClientMessage, WireDecodeError>,
    second_result: Result<ClientMessage, WireDecodeError>,
)
    requires
        envelope matches Ok(raw) && raw != Some(PROTOCOL_VERSION as u64),
        envelope_verdict(envelope, first, (|p: ClientPayload| (ClientMessage { v: PROTOCOL_VERSION, payload: p })), first_result),
        envelope_verdict(envelope, second, (|p: ClientPayload| (ClientMessage { v: PROTOCOL_VERSION, payload: p })), second_result),
    ensures
        first_result matches Err(a) && (second_result matches Err(b) && a.text() == b.text()),
{
}

/// One deterministic JSON Schema file generated from the wire types.
#[derive(Debug, Clone, PartialEq, Eq)]
pub struct SchemaDocument {
    relative_path: &'static str,
    json: String,
}

impl SchemaDocument {
    /// The document's path below the `schemas` directory.
    pub closed spec fn path(&self) -> Seq<char> {
        self.relative_path@
    }

    /// The document's text.
    pub closed spec fn text(&self) -> Seq<char> {
        self.json@
    }

    /// A document at `relative_path` holding `pretty_json` terminated by one
    /// newline.
    pub fn new(relative_path: &'static str, pretty_json: String) -> (d: SchemaDocument)
        ensures
            d.path() == relative_path@,
            d.text() == pretty_json@.push('\n'),
    {
        let mut json = pretty_json;
        json.append("\n");
        proof {
            reveal_strlit("\n");
        }
        SchemaDocument { relative_path, json }
    }

    /// Returns the path relative to the repository's `schemas` directory.
    pub fn relative_path(&self) -> (p: &'static str)
        ensures
            p@ == self.path(),
    {
        self.relative_path
    }

    /// Returns pretty-printed JSON terminated by one newline.
    pub fn json(&self) -> (s: &str)
        ensures
            s@ == self.text(),
    {
        self.json.as_str()
    }
}

/// The committed schema paths, in the order the bundle is generated.
pub open spec fn schema_path_list() -> Seq<Seq<char>> {
    seq![
        "protocol/v1/client-message.schema.json"@,
        "protocol/v1/server-message.schema.json"@,
        "game-plugin/v1/manifest.schema.json"@,
        "game-plugin/v1/package.schema.json"@,
        "telemetry/v1/telemetry-event.schema.json"@,
        "telemetry/v1/telemetry-snapshot.schema.json"@,
        "telemetry/v1/telemetry-update.schema.json"@,
    ]
}

/// Returns the committed schema paths in generation order.
pub fn schema_paths() -> (paths: Vec<&'static str>)
    ensures
        paths@.len() == schema_path_list().len(),
        forall|i: int| 0 <= i < paths@.len() ==> (#[trigger] paths@[i])@ == schema_path_list()[i],
{
    let paths = vec![
        "protocol/v1/client-message.schema.json",
        "protocol/v1/server-message.schema.json",
        "game-plugin/v1/manifest.schema.json",
        "game-plugin/v1/package.schema.json",
        "telemetry/v1/telemetry-event.schema.json",
        "telemetry/v1/telemetry-snapshot.schema.json",
        "telemetry/v1/telemetry-update.schema.json",
    ];
    paths
}

} // verus!
