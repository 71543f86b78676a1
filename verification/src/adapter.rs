//! Shared contract between game adapters and the Host.

use vstd::prelude::*;
use vstd::string::StringExecFns;

use std::collections::BTreeSet;

use crate::telemetry::model::{
    field_of_rank, field_rank, lemma_rank_of_field_of_rank, lemma_rank_round_trip, MonotonicTimestamp,
    TelemetryField,
};
use crate::text::{debug_quoted, render_debug_quoted};
use crate::telemetry::state::{TelemetryEvent, TelemetryUpdate};

verus! {

/// Longest adapter identifier, in bytes.
pub const MAX_ADAPTER_ID_LEN: usize = 64;

/// Whether `b` is a lowercase ASCII letter or an ASCII digit.
pub open spec fn is_slug_byte(b: u8) -> bool {
    (0x61 <= b && b <= 0x7a) || (0x30 <= b && b <= 0x39)
}

/// Whether `bytes` form an adapter identifier: one to 64 lowercase letters,
/// digits and hyphens, starting and ending with a letter or digit, with no two
/// hyphens in a row.
pub open spec fn valid_adapter_id(bytes: Seq<u8>) -> bool {
    &&& 0 < bytes.len() <= MAX_ADAPTER_ID_LEN
    &&& is_slug_byte(bytes[0])
    &&& is_slug_byte(bytes.last())
    &&& forall|i: int| 0 <= i < bytes.len() ==> is_slug_byte(#[trigger] bytes[i]) || bytes[i] == 0x2d
    &&& forall|i: int| 0 < i < bytes.len() && #[trigger] bytes[i] == 0x2d ==> bytes[i - 1] != 0x2d
}

fn is_slug(byte: u8) -> (b: bool)
    ensures
        b == is_slug_byte(byte),
{
    (byte >= 0x61 && byte <= 0x7a) || (byte >= 0x30 && byte <= 0x39)
}

/// Whether `value` is a stable lowercase adapter slug.
pub fn is_valid_adapter_id(value: &str) -> (b: bool)
    ensures
        b == valid_adapter_id(vstd::utf8::encode_utf8(value@)),
{
    let bytes = value.as_bytes();
    if bytes.len() == 0 || bytes.len() > MAX_ADAPTER_ID_LEN {
        return false;
    }
    if !is_slug(bytes[0]) || !is_slug(bytes[bytes.len() - 1]) {
        return false;
    }
    let mut previous_was_hyphen = false;
    let mut i: usize = 0;
    while i < bytes.len()
        invariant
            i <= bytes.len(),
            bytes@ == vstd::utf8::encode_utf8(value@),
            forall|j: int| 0 <= j < i ==> is_slug_byte(#[trigger] bytes@[j]) || bytes@[j] == 0x2d,
            forall|j: int| 0 < j < i && #[trigger] bytes@[j] == 0x2d ==> bytes@[j - 1] != 0x2d,
            i > 0 ==> previous_was_hyphen == (bytes@[i - 1] == 0x2d),
            i == 0 ==> !previous_was_hyphen,
        decreases bytes.len() - i,
    {
        let byte = bytes[i];
        if is_slug(byte) {
            previous_was_hyphen = false;
        } else if byte == 0x2d && !previous_was_hyphen {
            previous_was_hyphen = true;
        } else {
            return false;
        }
        i = i + 1;
    }
    true
}

/// Stable lowercase identifier for a game adapter.
#[derive(Debug, Clone, PartialEq, Eq, PartialOrd, Ord, Hash)]
pub struct AdapterId {
    value: String,
}

impl AdapterId {
    /// The identifier's text.
    pub closed spec fn text(&self) -> Seq<char> {
        self.value@
    }

    /// Whether the identifier is a valid slug; every identifier is.
    pub closed spec fn valid(&self) -> bool {
        valid_adapter_id(vstd::utf8::encode_utf8(self.value@))
    }

    /// Creates an adapter identifier from a lowercase ASCII slug, rejecting an
    /// identifier that is empty, longer than 64 bytes, holds other characters,
    /// or has a leading, trailing or repeated hyphen.
    pub fn new(value: String) -> (r: Result<AdapterId, AdapterIdError>)
        ensures
            match r {
                Ok(id) => valid_adapter_id(vstd::utf8::encode_utf8(value@)) && id.text() == value@ && id.valid(),
                Err(e) => !valid_adapter_id(vstd::utf8::encode_utf8(value@)) && e.value@ == value@,
            },
    {
        if is_valid_adapter_id(value.as_str()) {
            Ok(AdapterId { value })
        } else {
            Err(AdapterIdError { value })
        }
    }

    /// An identifier's text is a valid slug, so building an identifier from
    /// its own text succeeds, with that text.
    pub proof fn law_adapter_id_text_revalidates(id: AdapterId)
        requires
            id.valid(),
        ensures
            valid_adapter_id(vstd::utf8::encode_utf8(id.text())),
    {
    }

    /// Returns the identifier as a string slice.
    pub fn as_str(&self) -> (s: &str)
        ensures
            s@ == self.text(),
    {
        self.value.as_str()
    }
}

/// Error returned for an invalid [`AdapterId`].
#[derive(Debug, Clone, PartialEq, Eq)]
pub struct AdapterIdError {
    /// The rejected identifier.
    pub value: String,
}

impl AdapterIdError {
    /// Returns the rejected identifier.
    pub fn value(&self) -> (s: &str)
        ensures
            s@ == self.value@,
    {
        self.value.as_str()
    }

    /// The diagnostic message, `invalid adapter id: ` and the quoted identifier.
    pub open spec fn message(&self) -> Seq<char> {
        "invalid adapter id: "@ + debug_quoted(self.value@)
    }

    /// Renders the diagnostic message.
    pub fn to_string(&self) -> (s: String)
        ensures
            s@ == self.message(),
    {
        let mut text = String::from_str("invalid adapter id: ");
        let quoted = render_debug_quoted(self.value.as_str());
        text.append(quoted.as_str());
        text
    }
}

/// Whether `fields` is strictly increasing in declaration order, which also
/// makes it free of duplicates.
pub open spec fn ranked(fields: Seq<TelemetryField>) -> bool {
    forall|i: int, j: int| 0 <= i < j < fields.len() ==> field_rank(fields[i]) < field_rank(fields[j])
}

/// The fields whose ranks from `k` on lie in `ranks`, in rank order.
pub open spec fn fields_from(ranks: Set<u8>, k: int) -> Seq<TelemetryField>
    decreases 28 - k,
{
    if k < 0 || k >= 28 {
        Seq::empty()
    } else if ranks.contains(k as u8) {
        seq![field_of_rank(k)] + fields_from(ranks, k + 1)
    } else {
        fields_from(ranks, k + 1)
    }
}

/// A field occurs in [`fields_from`] exactly when its rank is at least `k`
/// and lies in the set; the sequence is ranked, with ranks from `k` on, and
/// no longer than the ranks it covers.
proof fn lemma_fields_from(ranks: Set<u8>, k: int)
    requires
        0 <= k <= 28,
    ensures
        forall|f: TelemetryField| #[trigger] fields_from(ranks, k).contains(f) <==> (k <= field_rank(f)
            && ranks.contains(field_rank(f) as u8)),
        ranked(fields_from(ranks, k)),
        forall|i: int| 0 <= i < fields_from(ranks, k).len() ==> k <= #[trigger] field_rank(fields_from(ranks, k)[i]) < 28,
        fields_from(ranks, k).len() <= 28 - k,
    decreases 28 - k,
{
    if k < 28 {
        lemma_fields_from(ranks, k + 1);
        let rest = fields_from(ranks, k + 1);
        lemma_rank_of_field_of_rank(k);
        if ranks.contains(k as u8) {
            let all = seq![field_of_rank(k)] + rest;
            assert forall|i: int| 0 <= i < all.len() implies k <= #[trigger] field_rank(all[i]) < 28 by {
                if i > 0 {
                    assert(all[i] == rest[i - 1]);
                }
            }
            assert forall|a: int, b: int| 0 <= a < b < all.len() implies field_rank(all[a]) < field_rank(all[b]) by {
                assert(all[b] == rest[b - 1]);
                if a > 0 {
                    assert(all[a] == rest[a - 1]);
                }
            }
            assert forall|f: TelemetryField| #[trigger] all.contains(f) <==> (k <= field_rank(f) && ranks.contains(
                field_rank(f) as u8,
            )) by {
                lemma_rank_round_trip(f);
                if all.contains(f) {
                    let j = choose|j: int| 0 <= j < all.len() && all[j] == f;
                    if j > 0 {
                        assert(rest[j - 1] == f);
                        assert(rest.contains(f));
                    }
                }
                if k <= field_rank(f) && ranks.contains(field_rank(f) as u8) {
                    if field_rank(f) == k {
                        assert(all[0] == f);
                    } else {
                        assert(rest.contains(f));
                        let j = choose|j: int| 0 <= j < rest.len() && rest[j] == f;
                        assert(all[j + 1] == f);
                    }
                }
            }
        } else {
            assert forall|f: TelemetryField| #[trigger] rest.contains(f) <==> (k <= field_rank(f) && ranks.contains(
                field_rank(f) as u8,
            )) by {
                lemma_rank_round_trip(f);
            }
        }
    }
}

/// Ranks are integers, whose order the ordered set relies on.
proof fn lemma_ranks_ordered()
    ensures
        vstd::laws_cmp::obeys_cmp::<u8>(),
{
    broadcast use vstd::laws_cmp::group_laws_cmp;
}

/// Ordered set of canonical telemetry fields supplied by an adapter, held as
/// the set of their declaration ranks.
#[derive(Debug, PartialEq, Eq)]
pub struct CapabilitySet {
    ranks: BTreeSet<u8>,
}

impl CapabilitySet {
    #[verifier::type_invariant]
    spec fn ranks_are_fields(self) -> bool {
        forall|r: u8| #[trigger] self.ranks@.contains(r) ==> r < 28
    }

    /// The capabilities in field order.
    pub closed spec fn fields(&self) -> Seq<TelemetryField> {
        fields_from(self.ranks@, 0)
    }

    /// The capability sequence is in field order, and a field occurs in it
    /// exactly when it was inserted.
    proof fn lemma_fields(&self)
        ensures
            ranked(self.fields()),
            forall|f: TelemetryField| #[trigger] self.fields().contains(f) <==> self.ranks@.contains(
                field_rank(f) as u8,
            ),
            self.fields().len() <= 28,
    {
        lemma_fields_from(self.ranks@, 0);
        assert forall|f: TelemetryField| #[trigger] self.fields().contains(f) <==> self.ranks@.contains(
            field_rank(f) as u8,
        ) by {
            lemma_rank_round_trip(f);
        }
    }

    /// Creates an empty capability set.
    pub fn new() -> (c: CapabilitySet)
        ensures
            c.fields() == Seq::<TelemetryField>::empty(),
    {
        let c = CapabilitySet { ranks: BTreeSet::new() };
        proof {
            c.lemma_fields();
            assert(c.fields() =~= Seq::<TelemetryField>::empty()) by {
                if c.fields().len() > 0 {
                    assert(c.fields().contains(c.fields()[0]));
                }
            }
        }
        c
    }

    /// Inserts a field, returning whether it was newly inserted.
    pub fn insert(&mut self, field: TelemetryField) -> (inserted: bool)
        ensures
            inserted == !old(self).fields().contains(field),
            final(self).fields().to_set() == old(self).fields().to_set().insert(field),
            ranked(final(self).fields()),
    {
        proof {
            lemma_ranks_ordered();
        }
        proof {
            use_type_invariant(&*self);
            self.lemma_fields();
            lemma_rank_round_trip(field);
        }
        let mut ranks = BTreeSet::new();
        std::mem::swap(&mut ranks, &mut self.ranks);
        let inserted = ranks.insert(field.rank());
        self.ranks = ranks;
        proof {
            self.lemma_fields();
            assert(self.fields().to_set() =~= old(self).fields().to_set().insert(field)) by {
                assert forall|x: TelemetryField| #[trigger] self.fields().to_set().contains(x) implies old(self).fields().to_set().insert(field).contains(x) by {
                    assert(self.fields().contains(x));
                    if x != field {
                        lemma_rank_round_trip(x);
                        if field_rank(x) == field_rank(field) {
                            lemma_rank_identifies(x, field);
                        }
                        assert(old(self).fields().contains(x));
                    }
                }
                assert forall|x: TelemetryField| #[trigger] old(self).fields().to_set().insert(field).contains(x) implies self.fields().to_set().contains(x) by {
                    if x != field {
                        assert(old(self).fields().contains(x));
                    }
                    assert(self.fields().contains(x));
                }
            }
        }
        inserted
    }

    /// Returns whether the adapter supplies `field`.
    pub fn contains(&self, field: TelemetryField) -> (b: bool)
        ensures
            b == self.fields().contains(field),
    {
        proof {
            lemma_ranks_ordered();
        }
        proof {
            self.lemma_fields();
        }
        let rank = field.rank();
        self.ranks.contains(&rank)
    }

    /// Returns the capabilities in deterministic field order.
    pub fn iter(&self) -> (v: Vec<TelemetryField>)
        ensures
            v@ == self.fields(),
            ranked(v@),
    {
        proof {
            lemma_ranks_ordered();
        }
        proof {
            use_type_invariant(self);
            self.lemma_fields();
        }
        let mut v: Vec<TelemetryField> = Vec::new();
        let mut k: u8 = 0;
        while k < 28
            invariant
                k <= 28,
                v@ + fields_from(self.ranks@, k as int) == self.fields(),
            decreases 28 - k,
        {
            if self.ranks.contains(&k) {
                let f = TelemetryField::from_rank(k);
                assert(fields_from(self.ranks@, k as int) == seq![f] + fields_from(self.ranks@, k + 1));
                assert(v@.push(f) + fields_from(self.ranks@, k + 1) =~= v@ + fields_from(self.ranks@, k as int));
                v.push(f);
            } else {
                assert(fields_from(self.ranks@, k as int) == fields_from(self.ranks@, k + 1));
            }
            k = k + 1;
        }
        assert(v@ =~= self.fields());
        v
    }

    /// Returns the number of distinct capabilities.
    pub fn len(&self) -> (n: usize)
        ensures
            n == self.fields().len(),
    {
        proof {
            lemma_ranks_ordered();
        }
        let mut n: usize = 0;
        let mut k: u8 = 0;
        proof {
            lemma_fields_from(self.ranks@, 0);
        }
        while k < 28
            invariant
                k <= 28,
                n <= k,
                n + fields_from(self.ranks@, k as int).len() == self.fields().len(),
            decreases 28 - k,
        {
            if self.ranks.contains(&k) {
                n = n + 1;
            }
            k = k + 1;
        }
        n
    }

    /// Returns whether no capabilities are present.
    pub fn is_empty(&self) -> (b: bool)
        ensures
            b == (self.fields().len() == 0),
    {
        self.len() == 0
    }

    /// Collects fields into a set, dropping repeats and ordering the rest.
    pub fn from_fields(fields: &[TelemetryField]) -> (c: CapabilitySet)
        ensures
            c.fields().to_set() == fields@.to_set(),
            ranked(c.fields()),
    {
        let mut set = CapabilitySet::new();
        let mut i: usize = 0;
        proof {
            assert(set.fields().to_set() =~= fields@.subrange(0, 0).to_set());
        }
        while i < fields.len()
            invariant
                i <= fields.len(),
                set.fields().to_set() == fields@.subrange(0, i as int).to_set(),
            decreases fields.len() - i,
        {
            set.insert(fields[i]);
            proof {
                assert(fields@.subrange(0, i + 1) =~= fields@.subrange(0, i as int).push(fields@[i as int]));
                fields@.subrange(0, i as int).lemma_push_to_set_commute(fields@[i as int]);
            }
            i = i + 1;
        }
        proof {
            assert(fields@.subrange(0, fields@.len() as int) =~= fields@);
            set.lemma_fields();
        }
        set
    }
}

impl Clone for CapabilitySet {
    fn clone(&self) -> (c: CapabilitySet)
        ensures
            c.fields() == self.fields(),
    {
        proof {
            use_type_invariant(self);
        }
        CapabilitySet { ranks: self.ranks.clone() }
    }
}

impl Default for CapabilitySet {
    fn default() -> (c: CapabilitySet)
        ensures
            c.fields() == Seq::<TelemetryField>::empty(),
    {
        CapabilitySet::new()
    }
}

/// Two fields of the same rank are the same field.
pub proof fn lemma_rank_identifies(a: TelemetryField, b: TelemetryField)
    requires
        field_rank(a) == field_rank(b),
    ensures
        a == b,
{
}

/// Static identity and capabilities of one game adapter.
#[derive(Debug, Clone, PartialEq, Eq)]
pub struct AdapterDescriptor {
    /// Stable machine-readable identifier.
    pub id: AdapterId,
    /// Human-readable game or adapter name.
    pub display_name: String,
    /// Game telemetry protocol version understood by the adapter.
    pub protocol_version: String,
    /// Canonical fields supplied by the adapter.
    pub capabilities: CapabilitySet,
}

impl AdapterDescriptor {
    /// Creates an adapter descriptor.
    pub fn new(
        id: AdapterId,
        display_name: String,
        protocol_version: String,
        capabilities: CapabilitySet,
    ) -> (d: AdapterDescriptor)
        ensures
            d.id == id,
            d.display_name == display_name,
            d.protocol_version == protocol_version,
            d.capabilities == capabilities,
    {
        AdapterDescriptor { id, display_name, protocol_version, capabilities }
    }
}

/// Reusable output buffers filled while decoding one datagram.
#[derive(Debug, PartialEq)]
pub struct AdapterOutput {
    /// Partial state updates emitted by the decoded datagram.
    pub updates: Vec<TelemetryUpdate>,
    /// Discrete events emitted by the decoded datagram.
    pub events: Vec<TelemetryEvent>,
}

impl AdapterOutput {
    /// Creates reusable output buffers with independent capacities.
    pub fn with_capacity(update_capacity: usize, event_capacity: usize) -> (o: AdapterOutput)
        ensures
            o.updates@.len() == 0,
            o.events@.len() == 0,
    {
        AdapterOutput {
            updates: Vec::with_capacity(update_capacity),
            events: Vec::with_capacity(event_capacity),
        }
    }

    /// Removes decoded values while retaining allocated storage for the next datagram.
    pub fn clear(&mut self)
        ensures
            final(self).updates@.len() == 0,
            final(self).events@.len() == 0,
    {
        self.updates.clear();
        self.events.clear();
    }
}

impl Default for AdapterOutput {
    fn default() -> (o: AdapterOutput)
        ensures
            o.updates@.len() == 0,
            o.events@.len() == 0,
    {
        AdapterOutput { updates: Vec::new(), events: Vec::new() }
    }
}

/// Failure returned while validating adapter configuration or decoding a datagram.
#[derive(Debug, Clone, PartialEq, Eq)]
#[non_exhaustive]
pub enum AdapterError {
    /// The datagram does not conform to the selected game protocol.
    MalformedPacket {
        /// Short diagnostic reason that does not contain raw packet data.
        reason: String,
    },
    /// The datagram uses a protocol version this adapter cannot decode.
    UnsupportedProtocol {
        /// Version accepted by the adapter.
        expected: String,
        /// Version observed in the datagram.
        actual: String,
    },
    /// Adapter configuration is invalid.
    InvalidConfiguration {
        /// Actionable validation reason.
        reason: String,
    },
}

impl AdapterError {
    /// Creates a malformed-packet error without retaining raw datagram bytes.
    pub fn malformed_packet(reason: &str) -> (e: AdapterError)
        ensures
            e matches AdapterError::MalformedPacket { reason: r } && r@ == reason@,
    {
        AdapterError::MalformedPacket { reason: String::from_str(reason) }
    }

    /// Creates an unsupported-protocol error.
    pub fn unsupported_protocol(expected: &str, actual: &str) -> (e: AdapterError)
        ensures
            e matches AdapterError::UnsupportedProtocol { expected: x, actual: a } && x@ == expected@
                && a@ == actual@,
    {
        AdapterError::UnsupportedProtocol {
            expected: String::from_str(expected),
            actual: String::from_str(actual),
        }
    }

    /// Creates an invalid-configuration error.
    pub fn invalid_configuration(reason: &str) -> (e: AdapterError)
        ensures
            e matches AdapterError::InvalidConfiguration { reason: r } && r@ == reason@,
    {
        AdapterError::InvalidConfiguration { reason: String::from_str(reason) }
    }

    /// The invalid-configuration error that reports an invalid identifier.
    pub fn from_id_error(error: AdapterIdError) -> (e: AdapterError)
        ensures
            e matches AdapterError::InvalidConfiguration { reason: r } && r@ == error.message(),
    {
        AdapterError::InvalidConfiguration { reason: error.to_string() }
    }

    /// The diagnostic message of an error.
    pub open spec fn message(&self) -> Seq<char> {
        match self {
            AdapterError::MalformedPacket { reason } => "malformed packet: "@ + reason@,
            AdapterError::UnsupportedProtocol { expected, actual } => "unsupported protocol version "@
                + actual@ + "; expected "@ + expected@,
            AdapterError::InvalidConfiguration { reason } => "invalid adapter configuration: "@ + reason@,
        }
    }

    /// Renders the diagnostic message.
    pub fn to_string(&self) -> (s: String)
        ensures
            s@ == self.message(),
    {
        match self {
            AdapterError::MalformedPacket { reason } => {
                let mut text = String::from_str("malformed packet: ");
                text.append(reason.as_str());
                text
            },
            AdapterError::UnsupportedProtocol { expected, actual } => {
                let mut text = String::from_str("unsupported protocol version ");
                text.append(actual.as_str());
                text.append("; expected ");
                text.append(expected.as_str());
                text
            },
            AdapterError::InvalidConfiguration { reason } => {
                let mut text = String::from_str("invalid adapter configuration: ");
                text.append(reason.as_str());
                text
            },
        }
    }
}

/// Contract implemented by every built-in game telemetry adapter.
pub trait GameAdapter {
    /// Returns stable identity, protocol, and capability metadata.
    fn descriptor(&self) -> &AdapterDescriptor;

    /// Decodes one datagram and appends its normalized values to `output`.
    ///
    /// The caller clears `output` before reusing it. Implementations do not
    /// retain `datagram` and do not panic on malformed input.
    fn decode(
        &mut self,
        datagram: &[u8],
        received_at: MonotonicTimestamp,
        output: &mut AdapterOutput,
    ) -> Result<(), AdapterError>;
}

} // verus!
