//! Typed views over raw MQTT v5.0 packet bytes.
//!
//! All parsers are tolerant: a malformed or short buffer yields `None`
//! rather than a panic. Every parser is specified by a spec function over the
//! byte sequence, and the executable code is proved to compute exactly it.
use vstd::prelude::*;
use vstd::slice::{slice_subrange, slice_to_vec};
use vstd::utf8::{decode_utf8, valid_utf8};

verus! {

pub const PROP_PAYLOAD_FORMAT_INDICATOR: u8 = 0x01;

pub const PROP_MESSAGE_EXPIRY_INTERVAL: u8 = 0x02;

pub const PROP_CONTENT_TYPE: u8 = 0x03;

pub const PROP_RESPONSE_TOPIC: u8 = 0x08;

pub const PROP_CORRELATION_DATA: u8 = 0x09;

pub const PROP_SUBSCRIPTION_IDENTIFIER: u8 = 0x0B;

pub const PROP_TOPIC_ALIAS: u8 = 0x23;

pub const PROP_USER_PROPERTY: u8 = 0x26;

// ---------------------------------------------------------------------------
// Variable byte integers
// ---------------------------------------------------------------------------
/// `128` raised to `k`.
pub open spec fn pow128(k: nat) -> int
    decreases k,
{
    if k == 0 {
        1
    } else {
        128 * pow128((k - 1) as nat)
    }
}

/// Reads the variable byte integer whose `k`-th byte (counting from zero)
/// sits at index `i`: each byte carries seven value bits, least significant
/// group first, and a set high bit announces another byte. At most four
/// bytes are read; a fourth byte that still announces a continuation makes
/// the integer malformed. The result is the value of the bytes from `i` on
/// and the index just past the last byte.
pub open spec fn varint_from(d: Seq<u8>, i: int, k: nat) -> Option<(int, int)>
    decreases 4 - k,
{
    if k >= 4 || i < 0 || i >= d.len() {
        None
    } else if d[i] < 128 {
        Some((d[i] as int, i + 1))
    } else if k == 3 {
        None
    } else {
        match varint_from(d, i + 1, k + 1) {
            Some((v, n)) => Some(((d[i] - 128) + 128 * v, n)),
            None => None,
        }
    }
}

/// The variable byte integer that starts at index `start`.
pub open spec fn spec_varint(d: Seq<u8>, start: int) -> Option<(int, int)> {
    varint_from(d, start, 0)
}

/// Every decoded value is below `128^(4 - k)` and the end index lies past
/// the first byte, inside the buffer.
pub proof fn lemma_varint_from_bounds(d: Seq<u8>, i: int, k: nat)
    requires
        k < 4,
    ensures
        varint_from(d, i, k) matches Some((v, n)) ==> 0 <= v < pow128((4 - k) as nat) && i < n
            <= d.len() && n - i <= 4 - k,
    decreases 4 - k,
{
    reveal_with_fuel(pow128, 5);
    if k < 3 && 0 <= i < d.len() && d[i] >= 128 {
        lemma_varint_from_bounds(d, i + 1, k + 1);
        if let Some((v, n)) = varint_from(d, i + 1, k + 1) {
            let p = pow128((3 - k) as nat);
            assert(pow128((4 - k) as nat) == 128 * p);
            assert((d[i] - 128) + 128 * v < 128 * p) by (nonlinear_arith)
                requires
                    0 <= d[i] - 128 < 128,
                    0 <= v < p,
            ;
        }
    }
}

/// Decodes an MQTT variable-length integer starting at `start` in `data`.
///
/// Returns the decoded value and the index of the byte immediately following
/// the encoded integer, or `None` if the buffer is short or the integer is
/// malformed (more than 4 continuation bytes).
pub fn decode_variable_int(data: &[u8], start: usize) -> (res: Option<(u32, usize)>)
    ensures
        match res {
            Some((v, n)) => spec_varint(data@, start as int) == Some((v as int, n as int)),
            None => spec_varint(data@, start as int) is None,
        },
{
    let ghost d = data@;
    let mut value: u32 = 0;
    let mut mult: u32 = 1;
    let mut k: usize = 0;
    let mut idx: usize = start;
    loop
        invariant
            d == data@,
            k < 4,
            idx == start + k,
            k > 0 ==> idx <= data@.len(),
            mult as int == pow128(k as nat),
            0 <= value < mult,
            spec_varint(d, start as int) == match varint_from(d, idx as int, k as nat) {
                Some((v, n)) => Some((value + mult * v, n)),
                None => None,
            },
        decreases 4 - k,
    {
        reveal_with_fuel(pow128, 5);
        if idx >= data.len() {
            return None;
        }
        let byte = data[idx];
        let low = (byte % 128) as u32;
        assert(mult <= 2097152) by {
            assert(pow128(3) == 2097152);
        }
        assert(value + low * mult < 128 * mult) by (nonlinear_arith)
            requires
                value < mult,
                low < 128,
        ;
        let ghost old_value = value;
        let ghost old_mult = mult;
        let ghost old_idx = idx;
        value = value + low * mult;
        idx = idx + 1;
        if byte < 128 {
            assert(low == byte);
            assert(varint_from(d, old_idx as int, k as nat) == Some((byte as int, idx as int)));
            assert(old_mult * byte == low * old_mult) by (nonlinear_arith)
                requires
                    low == byte,
            ;
            return Some((value, idx));
        }
        if k == 3 {
            return None;
        }
        proof {
            lemma_varint_from_bounds(d, idx as int, (k + 1) as nat);
            assert(low == byte - 128);
            if let Some((v, n)) = varint_from(d, idx as int, (k + 1) as nat) {
                assert(old_value + old_mult * ((byte - 128) + 128 * v) == (old_value + low
                    * old_mult) + (old_mult * 128) * v) by (nonlinear_arith)
                    requires
                        low == byte - 128,
                ;
            }
        }
        k = k + 1;
        mult = mult * 128;
    }
}

// ---------------------------------------------------------------------------
// Length-prefixed strings
// ---------------------------------------------------------------------------
/// The big-endian two-byte integer at index `i`.
pub open spec fn be_u16_at(d: Seq<u8>, i: int) -> int {
    d[i] as int * 256 + d[i + 1] as int
}

/// The big-endian four-byte integer at index `i`.
pub open spec fn be_u32_at(d: Seq<u8>, i: int) -> int {
    d[i] as int * 16777216 + d[i + 1] as int * 65536 + d[i + 2] as int * 256 + d[i + 3] as int
}

/// A length-prefixed UTF-8 string at index `idx`: a big-endian two-byte
/// length followed by that many bytes of UTF-8. The result is the decoded
/// characters and the index just past the string.
pub open spec fn spec_decode_string(d: Seq<u8>, idx: int) -> Option<(Seq<char>, int)> {
    if idx < 0 || idx + 2 > d.len() {
        None
    } else {
        let start = idx + 2;
        let end = start + be_u16_at(d, idx);
        if end > d.len() {
            None
        } else if !valid_utf8(d.subrange(start, end)) {
            None
        } else {
            Some((decode_utf8(d.subrange(start, end)), end))
        }
    }
}

/// `String::from_utf8` of std: documented to succeed exactly when the bytes
/// are valid UTF-8, giving the string those bytes encode. The contract
/// claims exactly that, with `valid_utf8` and `decode_utf8` of vstd as the
/// meaning of UTF-8.
#[verifier::external_body]
fn string_from_utf8(bytes: Vec<u8>) -> (res: Option<String>)
    ensures
        res is Some <==> valid_utf8(bytes@),
        res matches Some(s) ==> s@ == decode_utf8(bytes@),
{
    String::from_utf8(bytes).ok()
}

/// Reads the big-endian two-byte integer at `i`.
fn read_be_u16(data: &[u8], i: usize) -> (v: u16)
    requires
        i + 2 <= data@.len(),
    ensures
        v as int == be_u16_at(data@, i as int),
{
    (data[i] as u16) * 256 + data[i + 1] as u16
}

/// Decodes a length-prefixed UTF-8 string starting at `idx`.
///
/// Returns the decoded string and the index of the byte immediately following
/// the string, or `None` on truncation or invalid UTF-8.
pub fn decode_string(data: &[u8], idx: usize) -> (res: Option<(String, usize)>)
    ensures
        match res {
            Some((s, n)) => spec_decode_string(data@, idx as int) == Some((s@, n as int)),
            None => spec_decode_string(data@, idx as int) is None,
        },
{
    if idx > data.len() || data.len() - idx < 2 {
        return None;
    }
    let len = read_be_u16(data, idx) as usize;
    let start = idx + 2;
    if len > data.len() - start {
        return None;
    }
    let end = start + len;
    let bytes = slice_to_vec(slice_subrange(data, start, end));
    match string_from_utf8(bytes) {
        Some(s) => Some((s, end)),
        None => None,
    }
}


// ---------------------------------------------------------------------------
// Property tables
// ---------------------------------------------------------------------------
/// The abstract content of a property table.
#[verifier::ext_equal]
pub struct PropertiesView {
    pub user_properties: Seq<(Seq<char>, Seq<char>)>,
    pub subscription_identifiers: Seq<u32>,
    pub topic_alias: Option<u16>,
    pub content_type: Option<Seq<char>>,
    pub response_topic: Option<Seq<char>>,
    pub correlation_data: Option<Seq<u8>>,
    pub payload_format_indicator: Option<u8>,
    pub message_expiry_interval: Option<u32>,
}

/// A property table with no property in it.
pub open spec fn empty_properties() -> PropertiesView {
    PropertiesView {
        user_properties: Seq::empty(),
        subscription_identifiers: Seq::empty(),
        topic_alias: None,
        content_type: None,
        response_topic: None,
        correlation_data: None,
        payload_format_indicator: None,
        message_expiry_interval: None,
    }
}

/// How the body of a property that the view does not extract is laid out:
/// a fixed number of bytes, or a two-byte length followed by that many
/// bytes (strings and binary data).
#[derive(Debug, Clone, Copy, PartialEq, Eq, Structural)]
pub enum PropertyWidth {
    Fixed(usize),
    LengthPrefixed,
}

/// The body layout of each property MQTT v5.0 defines besides the eight
/// the view extracts; `None` for the extracted ones and for identifiers
/// MQTT v5.0 does not define.
pub open spec fn spec_property_width(id: u8) -> Option<PropertyWidth> {
    if id == 0x11 || id == 0x18 || id == 0x27 {
        Some(PropertyWidth::Fixed(4))
    } else if id == 0x13 || id == 0x21 || id == 0x22 {
        Some(PropertyWidth::Fixed(2))
    } else if id == 0x17 || id == 0x19 || id == 0x24 || id == 0x25 || id == 0x28 || id == 0x29
        || id == 0x2A {
        Some(PropertyWidth::Fixed(1))
    } else if id == 0x12 || id == 0x15 || id == 0x16 || id == 0x1A || id == 0x1C || id == 0x1F {
        Some(PropertyWidth::LengthPrefixed)
    } else {
        None
    }
}

/// The body layout of a property the view does not extract (see
/// `spec_property_width`).
pub fn property_width(id: u8) -> (r: Option<PropertyWidth>)
    ensures
        r == spec_property_width(id),
{
    if id == 0x11 || id == 0x18 || id == 0x27 {
        Some(PropertyWidth::Fixed(4))
    } else if id == 0x13 || id == 0x21 || id == 0x22 {
        Some(PropertyWidth::Fixed(2))
    } else if id == 0x17 || id == 0x19 || id == 0x24 || id == 0x25 || id == 0x28 || id == 0x29
        || id == 0x2A {
        Some(PropertyWidth::Fixed(1))
    } else if id == 0x12 || id == 0x15 || id == 0x16 || id == 0x1A || id == 0x1C || id == 0x1F {
        Some(PropertyWidth::LengthPrefixed)
    } else {
        None
    }
}

/// Reads the one property whose identifier sits at `idx`, in a table that
/// ends at `end`, adding it to `p`. Every body must lie within the table:
/// strings and variable byte integers are read from `d` cut at `end`.
/// Properties the view does not extract are skipped by their length. The
/// result is the updated table and the index just past the property;
/// identifiers MQTT v5.0 does not define, truncated bodies and invalid
/// UTF-8 in an extracted string give `None`.
pub open spec fn property_step(d: Seq<u8>, idx: int, end: int, p: PropertiesView) -> Option<
    (PropertiesView, int),
> {
    let b = d.subrange(0, end);
    let id = d[idx];
    let i = idx + 1;
    if id == PROP_PAYLOAD_FORMAT_INDICATOR {
        if i >= end {
            None
        } else {
            Some((PropertiesView { payload_format_indicator: Some(d[i]), ..p }, i + 1))
        }
    } else if id == PROP_MESSAGE_EXPIRY_INTERVAL {
        if i + 4 > end {
            None
        } else {
            Some(
                (
                    PropertiesView { message_expiry_interval: Some(be_u32_at(d, i) as u32), ..p },
                    i + 4,
                ),
            )
        }
    } else if id == PROP_CONTENT_TYPE {
        match spec_decode_string(b, i) {
            Some((s, n)) => Some((PropertiesView { content_type: Some(s), ..p }, n)),
            None => None,
        }
    } else if id == PROP_RESPONSE_TOPIC {
        match spec_decode_string(b, i) {
            Some((s, n)) => Some((PropertiesView { response_topic: Some(s), ..p }, n)),
            None => None,
        }
    } else if id == PROP_CORRELATION_DATA {
        if i + 2 > end {
            None
        } else {
            let body_start = i + 2;
            let body_end = body_start + be_u16_at(d, i);
            if body_end > end {
                None
            } else {
                Some(
                    (
                        PropertiesView {
                            correlation_data: Some(d.subrange(body_start, body_end)),
                            ..p
                        },
                        body_end,
                    ),
                )
            }
        }
    } else if id == PROP_SUBSCRIPTION_IDENTIFIER {
        match spec_varint(b, i) {
            Some((v, n)) => Some(
                (
                    PropertiesView {
                        subscription_identifiers: p.subscription_identifiers.push(v as u32),
                        ..p
                    },
                    n,
                ),
            ),
            None => None,
        }
    } else if id == PROP_TOPIC_ALIAS {
        if i + 2 > end {
            None
        } else {
            Some((PropertiesView { topic_alias: Some(be_u16_at(d, i) as u16), ..p }, i + 2))
        }
    } else if id == PROP_USER_PROPERTY {
        match spec_decode_string(b, i) {
            Some((key, after_key)) => match spec_decode_string(b, after_key) {
                Some((value, after_value)) => Some(
                    (
                        PropertiesView {
                            user_properties: p.user_properties.push((key, value)),
                            ..p
                        },
                        after_value,
                    ),
                ),
                None => None,
            },
            None => None,
        }
    } else {
        match spec_property_width(id) {
            Some(PropertyWidth::Fixed(w)) => if i + w > end {
                None
            } else {
                Some((p, i + w))
            },
            Some(PropertyWidth::LengthPrefixed) => if i + 2 > end {
                None
            } else if i + 2 + be_u16_at(d, i) > end {
                None
            } else {
                Some((p, i + 2 + be_u16_at(d, i)))
            },
            None => None,
        }
    }
}

/// Reading a property always moves past its identifier.
pub proof fn lemma_property_step_advances(d: Seq<u8>, idx: int, end: int, p: PropertiesView)
    ensures
        property_step(d, idx, end, p) matches Some((q, n)) ==> n > idx,
{
    lemma_varint_from_bounds(d.subrange(0, end), idx + 1, 0);
}

/// Walks the property table from `idx` up to `end`, one property at a time,
/// starting from the table `p`. The walk stops as soon as the index reaches
/// or passes `end`.
pub open spec fn properties_from(d: Seq<u8>, idx: int, end: int, p: PropertiesView) -> Option<
    PropertiesView,
>
    decreases end - idx,
{
    if idx >= end {
        Some(p)
    } else {
        match property_step(d, idx, end, p) {
            Some((q, n)) => {
                proof {
                    lemma_property_step_advances(d, idx, end, p);
                }
                if n >= end {
                    Some(q)
                } else {
                    properties_from(d, n, end, q)
                }
            },
            None => None,
        }
    }
}

/// The property table of `len` bytes at index `start`; `None` when it does
/// not fit in the buffer, a property runs past the table or is malformed, or an
/// identifier is not one MQTT v5.0 defines.
pub open spec fn spec_parse_properties(d: Seq<u8>, start: int, len: int) -> Option<PropertiesView> {
    if start < 0 || len < 0 || start + len > d.len() {
        None
    } else {
        properties_from(d, start, start + len, empty_properties())
    }
}


/// A typed view over the property table of any MQTT v5.0 packet.
///
/// Walks the variable-length property block once on construction and exposes
/// the most common fields. Every property MQTT v5.0 defines is read or
/// skipped by its length; an identifier it does not define, or a body that
/// runs past the block, makes the whole table invalid.
#[derive(Debug, Clone)]
pub struct ParsedProperties {
    pub user_properties: Vec<(String, String)>,
    pub subscription_identifiers: Vec<u32>,
    pub topic_alias: Option<u16>,
    pub content_type: Option<String>,
    pub response_topic: Option<String>,
    pub correlation_data: Option<Vec<u8>>,
    pub payload_format_indicator: Option<u8>,
    pub message_expiry_interval: Option<u32>,
}

impl View for ParsedProperties {
    type V = PropertiesView;

    open spec fn view(&self) -> PropertiesView {
        PropertiesView {
            user_properties: self.user_properties.deep_view(),
            subscription_identifiers: self.subscription_identifiers@,
            topic_alias: self.topic_alias,
            content_type: self.content_type.deep_view(),
            response_topic: self.response_topic.deep_view(),
            correlation_data: self.correlation_data.deep_view(),
            payload_format_indicator: self.payload_format_indicator,
            message_expiry_interval: self.message_expiry_interval,
        }
    }
}

impl Default for ParsedProperties {
    fn default() -> (r: Self)
        ensures
            r@ == empty_properties(),
    {
        let r = ParsedProperties {
            user_properties: Vec::new(),
            subscription_identifiers: Vec::new(),
            topic_alias: None,
            content_type: None,
            response_topic: None,
            correlation_data: None,
            payload_format_indicator: None,
            message_expiry_interval: None,
        };
        assert(r@ =~= empty_properties());
        r
    }
}

/// Reads the big-endian four-byte integer at `i`.
fn read_be_u32(data: &[u8], i: usize) -> (v: u32)
    requires
        i + 4 <= data@.len(),
    ensures
        v as int == be_u32_at(data@, i as int),
{
    (data[i] as u32) * 16777216 + (data[i + 1] as u32) * 65536 + (data[i + 2] as u32) * 256
        + data[i + 3] as u32
}

impl ParsedProperties {
    /// Parses the property block at `[start..start+len]`.
    ///
    /// Returns `None` if any property's body runs past the block or is
    /// malformed, or an identifier is not one MQTT v5.0 defines.
    pub fn parse(data: &[u8], start: usize, len: usize) -> (res: Option<Self>)
        ensures
            match res {
                Some(p) => spec_parse_properties(data@, start as int, len as int) == Some(p@),
                None => spec_parse_properties(data@, start as int, len as int) is None,
            },
    {
        if start > data.len() || len > data.len() - start {
            return None;
        }
        let end = start + len;
        let ghost d = data@;
        let block = slice_subrange(data, 0, end);
        let mut props = Self::default();
        let mut idx = start;
        while idx < end
            invariant
                d == data@,
                block@ == d.subrange(0, end as int),
                end <= data@.len(),
                idx <= data@.len(),
                end == start + len,
                spec_parse_properties(d, start as int, len as int) == properties_from(
                    d,
                    idx as int,
                    end as int,
                    props@,
                ),
            decreases data@.len() - idx,
        {
            let ghost old_props = props@;
            let ghost old_idx = idx as int;
            let prop_id = data[idx];
            let i = idx + 1;
            if prop_id == PROP_PAYLOAD_FORMAT_INDICATOR {
                if i >= end {
                    return None;
                }
                props.payload_format_indicator = Some(data[i]);
                idx = i + 1;
            } else if prop_id == PROP_MESSAGE_EXPIRY_INTERVAL {
                if end - i < 4 {
                    return None;
                }
                props.message_expiry_interval = Some(read_be_u32(data, i));
                idx = i + 4;
            } else if prop_id == PROP_CONTENT_TYPE {
                match decode_string(block, i) {
                    Some((s, next)) => {
                        props.content_type = Some(s);
                        idx = next;
                    },
                    None => {
                        return None;
                    },
                }
            } else if prop_id == PROP_RESPONSE_TOPIC {
                match decode_string(block, i) {
                    Some((s, next)) => {
                        props.response_topic = Some(s);
                        idx = next;
                    },
                    None => {
                        return None;
                    },
                }
            } else if prop_id == PROP_CORRELATION_DATA {
                if end - i < 2 {
                    return None;
                }
                let body_len = read_be_u16(data, i) as usize;
                let body_start = i + 2;
                if body_len > end - body_start {
                    return None;
                }
                let body_end = body_start + body_len;
                props.correlation_data = Some(
                    slice_to_vec(slice_subrange(data, body_start, body_end)),
                );
                idx = body_end;
            } else if prop_id == PROP_SUBSCRIPTION_IDENTIFIER {
                match decode_variable_int(block, i) {
                    Some((v, next)) => {
                        proof {
                            lemma_varint_from_bounds(block@, i as int, 0);
                        }
                        props.subscription_identifiers.push(v);
                        idx = next;
                    },
                    None => {
                        return None;
                    },
                }
            } else if prop_id == PROP_TOPIC_ALIAS {
                if end - i < 2 {
                    return None;
                }
                props.topic_alias = Some(read_be_u16(data, i));
                idx = i + 2;
            } else if prop_id == PROP_USER_PROPERTY {
                match decode_string(block, i) {
                    Some((key, after_key)) => match decode_string(block, after_key) {
                        Some((value, after_value)) => {
                            let ghost kv = (key@, value@);
                            props.user_properties.push((key, value));
                            assert(props.user_properties.deep_view() =~= old_props.user_properties.push(kv));
                            idx = after_value;
                        },
                        None => {
                            return None;
                        },
                    },
                    None => {
                        return None;
                    },
                }
            } else {
                match property_width(prop_id) {
                    Some(PropertyWidth::Fixed(w)) => {
                        if w > end - i {
                            return None;
                        }
                        idx = i + w;
                    },
                    Some(PropertyWidth::LengthPrefixed) => {
                        if end - i < 2 {
                            return None;
                        }
                        let body_len = read_be_u16(data, i) as usize;
                        if body_len > end - i - 2 {
                            return None;
                        }
                        idx = i + 2 + body_len;
                    },
                    None => {
                        return None;
                    },
                }
            }
            proof {
                let step = property_step(d, old_idx, end as int, old_props);
                assert(step == Some((props@, idx as int)));
            }
        }
        Some(props)
    }
}


// ---------------------------------------------------------------------------
// PUBLISH
// ---------------------------------------------------------------------------
/// The abstract content of a PUBLISH packet.
#[verifier::ext_equal]
pub struct PublishView {
    pub dup: bool,
    pub qos: u8,
    pub retain: bool,
    pub topic: Seq<char>,
    pub packet_id: Option<u16>,
    pub properties: PropertiesView,
    pub payload: Seq<u8>,
}

/// A PUBLISH packet: first byte `0x3X` carrying DUP (bit 3), QoS (bits 1-2)
/// and RETAIN (bit 0), the remaining length, the topic, a packet identifier
/// when QoS > 0, the property table, and the payload up to the end of the
/// packet.
pub open spec fn spec_parse_publish(d: Seq<u8>) -> Option<PublishView> {
    if d.len() == 0 || (d[0] & 0xF0) != 0x30 {
        None
    } else {
        let first = d[0];
        let qos = (first >> 1) & 0x03;
        match spec_varint(d, 1) {
            None => None,
            Some((remaining, body_start)) => {
                let body_end = body_start + remaining;
                if body_end > d.len() {
                    None
                } else {
                    match spec_decode_string(d, body_start) {
                        None => None,
                        Some((topic, after_topic)) => {
                            if qos > 0 && after_topic + 2 > body_end {
                                None
                            } else {
                                let packet_id = if qos > 0 {
                                    Some(be_u16_at(d, after_topic) as u16)
                                } else {
                                    None
                                };
                                let idx = if qos > 0 {
                                    after_topic + 2
                                } else {
                                    after_topic
                                };
                                match spec_varint(d, idx) {
                                    None => None,
                                    Some((props_len, props_start)) => match spec_parse_properties(
                                        d,
                                        props_start,
                                        props_len,
                                    ) {
                                        None => None,
                                        Some(properties) => {
                                            let payload_start = props_start + props_len;
                                            if payload_start > body_end {
                                                None
                                            } else {
                                                Some(
                                                    PublishView {
                                                        dup: (first & 0x08) != 0,
                                                        qos,
                                                        retain: (first & 0x01) != 0,
                                                        topic,
                                                        packet_id,
                                                        properties,
                                                        payload: d.subrange(payload_start, body_end),
                                                    },
                                                )
                                            }
                                        },
                                    },
                                }
                            }
                        },
                    }
                }
            },
        }
    }
}

/// A typed view over a PUBLISH packet's bytes.
#[derive(Debug, Clone)]
pub struct ParsedPublish {
    pub dup: bool,
    pub qos: u8,
    pub retain: bool,
    pub topic: String,
    pub packet_id: Option<u16>,
    pub properties: ParsedProperties,
    pub payload: Vec<u8>,
}

impl View for ParsedPublish {
    type V = PublishView;

    open spec fn view(&self) -> PublishView {
        PublishView {
            dup: self.dup,
            qos: self.qos,
            retain: self.retain,
            topic: self.topic@,
            packet_id: self.packet_id,
            properties: self.properties@,
            payload: self.payload@,
        }
    }
}

impl ParsedPublish {
    /// Parses a PUBLISH packet from raw bytes.
    ///
    /// Returns `None` if the first byte is not a PUBLISH (`0x3X`) or any field
    /// is truncated.
    pub fn parse(data: &[u8]) -> (res: Option<Self>)
        ensures
            match res {
                Some(p) => spec_parse_publish(data@) == Some(p@),
                None => spec_parse_publish(data@) is None,
            },
            res matches Some(p) ==> p.retain == ((data@[0] & 0x01) != 0) && p.dup == ((data@[0]
                & 0x08) != 0) && p.qos == ((data@[0] >> 1) & 0x03) && (p.packet_id is Some
                <==> p.qos > 0),
    {
        if data.len() == 0 || (data[0] & 0xF0) != 0x30 {
            return None;
        }
        let first_byte = data[0];
        let dup = (first_byte & 0x08) != 0;
        let qos = (first_byte >> 1) & 0x03;
        let retain = (first_byte & 0x01) != 0;
        let (remaining_len, body_start) = match decode_variable_int(data, 1) {
            Some(r) => r,
            None => {
                return None;
            },
        };
        proof {
            lemma_varint_from_bounds(data@, 1, 0);
        }
        if remaining_len as usize > data.len() - body_start {
            return None;
        }
        let body_end = body_start + remaining_len as usize;
        let (topic, after_topic) = match decode_string(data, body_start) {
            Some(r) => r,
            None => {
                return None;
            },
        };
        let mut idx = after_topic;
        let packet_id = if qos > 0 {
            if after_topic > body_end || body_end - after_topic < 2 {
                return None;
            }
            let pid = read_be_u16(data, after_topic);
            idx = after_topic + 2;
            Some(pid)
        } else {
            None
        };
        let (props_len, props_start) = match decode_variable_int(data, idx) {
            Some(r) => r,
            None => {
                return None;
            },
        };
        let properties = match ParsedProperties::parse(data, props_start, props_len as usize) {
            Some(p) => p,
            None => {
                return None;
            },
        };
        let payload_start = props_start + props_len as usize;
        if payload_start > body_end {
            return None;
        }
        let payload = slice_to_vec(slice_subrange(data, payload_start, body_end));
        let parsed = ParsedPublish { dup, qos, retain, topic, packet_id, properties, payload };
        assert(parsed@ =~= spec_parse_publish(data@).unwrap());
        Some(parsed)
    }
}

// ---------------------------------------------------------------------------
// CONNACK
// ---------------------------------------------------------------------------
/// The abstract content of a CONNACK packet.
#[verifier::ext_equal]
pub struct ConnAckView {
    pub session_present: bool,
    pub reason_code: u8,
    pub properties: PropertiesView,
}

/// A CONNACK packet: first byte `0x20`, the remaining length (at least two),
/// the acknowledge flags (bit 0 is Session Present), the reason code, and,
/// when the packet has more bytes, a property table.
pub open spec fn spec_parse_connack(d: Seq<u8>) -> Option<ConnAckView> {
    if d.len() == 0 || d[0] != 0x20 {
        None
    } else {
        match spec_varint(d, 1) {
            None => None,
            Some((remaining, body_start)) => {
                let body_end = body_start + remaining;
                if body_end > d.len() || remaining < 2 {
                    None
                } else {
                    let after_fixed = body_start + 2;
                    let properties = if after_fixed < body_end {
                        match spec_varint(d, after_fixed) {
                            None => None,
                            Some((props_len, props_start)) => spec_parse_properties(
                                d,
                                props_start,
                                props_len,
                            ),
                        }
                    } else {
                        Some(empty_properties())
                    };
                    match properties {
                        None => None,
                        Some(properties) => Some(
                            ConnAckView {
                                session_present: (d[body_start] & 0x01) != 0,
                                reason_code: d[body_start + 1],
                                properties,
                            },
                        ),
                    }
                }
            },
        }
    }
}

/// A typed view over a CONNACK packet's bytes.
#[derive(Debug, Clone)]
pub struct ParsedConnAck {
    pub session_present: bool,
    pub reason_code: u8,
    pub properties: ParsedProperties,
}

impl View for ParsedConnAck {
    type V = ConnAckView;

    open spec fn view(&self) -> ConnAckView {
        ConnAckView {
            session_present: self.session_present,
            reason_code: self.reason_code,
            properties: self.properties@,
        }
    }
}

impl ParsedConnAck {
    /// Parses a CONNACK packet from raw bytes.
    ///
    /// Returns `None` if the first byte is not `0x20` or any field is truncated.
    pub fn parse(data: &[u8]) -> (res: Option<Self>)
        ensures
            match res {
                Some(p) => spec_parse_connack(data@) == Some(p@),
                None => spec_parse_connack(data@) is None,
            },
    {
        if data.len() == 0 || data[0] != 0x20 {
            return None;
        }
        let (remaining_len, body_start) = match decode_variable_int(data, 1) {
            Some(r) => r,
            None => {
                return None;
            },
        };
        proof {
            lemma_varint_from_bounds(data@, 1, 0);
        }
        if remaining_len as usize > data.len() - body_start || remaining_len < 2 {
            return None;
        }
        let body_end = body_start + remaining_len as usize;
        let session_present = (data[body_start] & 0x01) != 0;
        let reason_code = data[body_start + 1];
        let after_fixed = body_start + 2;
        let properties = if after_fixed < body_end {
            let (props_len, props_start) = match decode_variable_int(data, after_fixed) {
                Some(r) => r,
                None => {
                    return None;
                },
            };
            match ParsedProperties::parse(data, props_start, props_len as usize) {
                Some(p) => p,
                None => {
                    return None;
                },
            }
        } else {
            ParsedProperties::default()
        };
        let parsed = ParsedConnAck { session_present, reason_code, properties };
        assert(parsed@ =~= spec_parse_connack(data@).unwrap());
        Some(parsed)
    }
}

/// The header flags of a parsed PUBLISH are read from its first byte:
/// RETAIN is bit 0, the QoS bits 1-2 and DUP bit 3; a packet identifier is
/// present exactly for QoS 1 and 2; and only a first byte of the form
/// `0x3X` parses as a PUBLISH at all.
pub proof fn law_publish_flags_from_first_byte(d: Seq<u8>)
    ensures
        spec_parse_publish(d) matches Some(p) ==> {
            &&& d.len() > 0
            &&& (d[0] & 0xF0) == 0x30
            &&& p.retain == ((d[0] & 0x01) != 0)
            &&& p.dup == ((d[0] & 0x08) != 0)
            &&& p.qos == ((d[0] >> 1) & 0x03)
            &&& (p.packet_id is Some <==> p.qos > 0)
        },
        d.len() == 0 || (d[0] & 0xF0) != 0x30 ==> spec_parse_publish(d) is None,
{
}

} // verus!
