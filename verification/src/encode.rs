//! Encoders for the MQTT wire format, used to build hand-crafted packets
//! (including deliberately unusual ones) byte by byte.
use crate::packet_parser::{spec_decode_string, spec_varint, varint_from, be_u16_at, pow128};
use vstd::prelude::*;
use vstd::utf8::{
    decode_utf8, encode_utf8, encode_utf8_decode_utf8, encode_utf8_valid_utf8, is_ascii_chars,
    is_ascii_chars_encode_utf8, valid_utf8,
};

verus! {

/// The variable byte integer encoding of `v`: seven value bits per byte,
/// least significant group first, with the high bit set on every byte but
/// the last.
pub open spec fn varint_encoding(v: nat) -> Seq<u8>
    decreases v,
{
    if v < 128 {
        seq![v as u8]
    } else {
        seq![((v % 128) + 128) as u8] + varint_encoding(v / 128)
    }
}

/// The big-endian two-byte encoding of `v`.
pub open spec fn be_u16_bytes(v: nat) -> Seq<u8> {
    seq![(v / 256) as u8, (v % 256) as u8]
}

/// The big-endian four-byte encoding of `v`.
pub open spec fn be_u32_bytes(v: nat) -> Seq<u8> {
    seq![(v / 16777216) as u8, ((v / 65536) % 256) as u8, ((v / 256) % 256) as u8, (v % 256) as u8]
}

/// A length-prefixed UTF-8 string: the byte length as two big-endian bytes,
/// then the UTF-8 bytes.
pub open spec fn string_encoding(s: Seq<char>) -> Seq<u8> {
    be_u16_bytes(encode_utf8(s).len()) + encode_utf8(s)
}

/// A packet: its first byte, the body length as a variable byte integer, and
/// the body.
pub open spec fn packet_encoding(first: u8, body: Seq<u8>) -> Seq<u8> {
    seq![first] + varint_encoding(body.len()) + body
}

/// Appends the variable byte integer encoding of `value` to `buf`.
pub fn encode_variable_int(buf: &mut Vec<u8>, value: u32)
    ensures
        final(buf)@ == old(buf)@ + varint_encoding(value as nat),
{
    let mut v = value;
    while v >= 128
        invariant
            buf@ + varint_encoding(v as nat) == old(buf)@ + varint_encoding(value as nat),
        decreases v,
    {
        let ghost before = buf@;
        buf.push((v % 128) as u8 + 128);
        assert(buf@ + varint_encoding((v / 128) as nat) =~= before + varint_encoding(v as nat));
        v = v / 128;
    }
    let ghost before = buf@;
    buf.push(v as u8);
    assert(buf@ =~= before + varint_encoding(v as nat));
}

/// Appends the bytes of `bytes` to `buf`.
fn put_slice(buf: &mut Vec<u8>, bytes: &[u8])
    ensures
        final(buf)@ == old(buf)@ + bytes@,
{
    let mut i: usize = 0;
    while i < bytes.len()
        invariant
            i <= bytes@.len(),
            buf@ == old(buf)@ + bytes@.subrange(0, i as int),
        decreases bytes@.len() - i,
    {
        buf.push(bytes[i]);
        assert(bytes@.subrange(0, i + 1) =~= bytes@.subrange(0, i as int).push(bytes@[i as int]));
        i = i + 1;
    }
    assert(bytes@.subrange(0, i as int) =~= bytes@);
}

/// Appends `v` as two big-endian bytes.
pub fn put_u16(buf: &mut Vec<u8>, v: u16)
    ensures
        final(buf)@ == old(buf)@ + be_u16_bytes(v as nat),
{
    buf.push((v / 256) as u8);
    buf.push((v % 256) as u8);
    assert(buf@ =~= old(buf)@ + be_u16_bytes(v as nat));
}

/// Appends `v` as four big-endian bytes.
pub fn put_u32(buf: &mut Vec<u8>, v: u32)
    ensures
        final(buf)@ == old(buf)@ + be_u32_bytes(v as nat),
{
    buf.push((v / 16777216) as u8);
    buf.push(((v / 65536) % 256) as u8);
    buf.push(((v / 256) % 256) as u8);
    buf.push((v % 256) as u8);
    assert(buf@ =~= old(buf)@ + be_u32_bytes(v as nat));
}

/// Appends `s` as a length-prefixed UTF-8 string.
pub fn put_mqtt_string(buf: &mut Vec<u8>, s: &str)
    requires
        encode_utf8(s@).len() <= 65535,
    ensures
        final(buf)@ == old(buf)@ + string_encoding(s@),
{
    let bytes = s.as_bytes();
    put_u16(buf, bytes.len() as u16);
    put_slice(buf, bytes);
    assert(buf@ =~= old(buf)@ + string_encoding(s@));
}

/// Builds a packet from its first byte and its body.
pub fn wrap_fixed_header(first: u8, body: &[u8]) -> (packet: Vec<u8>)
    requires
        body@.len() <= u32::MAX,
    ensures
        packet@ == packet_encoding(first, body@),
{
    let mut packet: Vec<u8> = Vec::new();
    packet.push(first);
    encode_variable_int(&mut packet, body.len() as u32);
    put_slice(&mut packet, body);
    assert(packet@ =~= packet_encoding(first, body@));
    packet
}

/// A short ASCII string is encoded in as many bytes as it has characters.
pub proof fn lemma_ascii_encoding_len(s: Seq<char>)
    requires
        is_ascii_chars(s),
    ensures
        encode_utf8(s).len() == s.len(),
{
    is_ascii_chars_encode_utf8(s);
}

// ---------------------------------------------------------------------------
// Hand-built CONNECT packets
// ---------------------------------------------------------------------------
/// Protocol name `MQTT` (length-prefixed) and protocol level 5.
pub open spec fn connect_preamble() -> Seq<u8> {
    seq![0x00, 0x04, 0x4D, 0x51, 0x54, 0x54, 0x05]
}

/// A CONNECT with the given connect flags, keep-alive 60, no properties and
/// client id `test-flags-client`; when the Will flag (bit 2) is set, an
/// empty will property table, will topic `will/topic` and will payload
/// `will-payload` follow.
pub open spec fn spec_connect_with_flags(flags: u8) -> Seq<u8> {
    let head = connect_preamble() + seq![flags] + be_u16_bytes(60) + seq![0x00] + string_encoding(
        "test-flags-client"@,
    );
    let body = if flags & 0x04 != 0 {
        head + seq![0x00] + string_encoding("will/topic"@) + string_encoding("will-payload"@)
    } else {
        head
    };
    packet_encoding(0x10, body)
}

/// A CONNECT without Clean Start, keep-alive 60, a property table holding
/// only Session Expiry Interval (`0x11`) and the given client id.
pub open spec fn spec_connect_resume(client_id: Seq<char>, session_expiry: u32) -> Seq<u8> {
    let props = seq![0x11u8] + be_u32_bytes(session_expiry as nat);
    packet_encoding(
        0x10,
        connect_preamble() + seq![0x00] + be_u16_bytes(60) + varint_encoding(props.len()) + props
            + string_encoding(client_id),
    )
}

/// A CONNECT with Clean Start, keep-alive 60, no properties and an empty
/// client id.
pub open spec fn spec_connect_empty_client_id() -> Seq<u8> {
    packet_encoding(
        0x10,
        connect_preamble() + seq![0x02] + be_u16_bytes(60) + seq![0x00] + string_encoding(
            Seq::empty(),
        ),
    )
}

/// Appends the protocol name and level of MQTT 5.0.
fn put_connect_preamble(body: &mut Vec<u8>)
    ensures
        final(body)@ == old(body)@ + connect_preamble(),
{
    put_u16(body, 4);
    body.push(0x4D);
    body.push(0x51);
    body.push(0x54);
    body.push(0x54);
    body.push(5);
    assert(body@ =~= old(body)@ + connect_preamble());
}

/// Builds a CONNECT carrying the given connect flags (see
/// `spec_connect_with_flags`).
pub fn build_connect_with_flags(connect_flags: u8) -> (packet: Vec<u8>)
    ensures
        packet@ == spec_connect_with_flags(connect_flags),
{
    let mut body: Vec<u8> = Vec::new();
    put_connect_preamble(&mut body);
    body.push(connect_flags);
    put_u16(&mut body, 60);
    body.push(0);
    proof {
        reveal_strlit("test-flags-client");
        reveal_strlit("will/topic");
        reveal_strlit("will-payload");
        lemma_ascii_encoding_len("test-flags-client"@);
        lemma_ascii_encoding_len("will/topic"@);
        lemma_ascii_encoding_len("will-payload"@);
    }
    put_mqtt_string(&mut body, "test-flags-client");
    if connect_flags & 0x04 != 0 {
        body.push(0);
        put_mqtt_string(&mut body, "will/topic");
        put_mqtt_string(&mut body, "will-payload");
    }
    let packet = wrap_fixed_header(0x10, body.as_slice());
    proof {
        let head = connect_preamble() + seq![connect_flags] + be_u16_bytes(60) + seq![0x00u8]
            + string_encoding("test-flags-client"@);
        if connect_flags & 0x04 != 0 {
            assert(body@ =~= head + seq![0x00u8] + string_encoding("will/topic"@)
                + string_encoding("will-payload"@));
        } else {
            assert(body@ =~= head);
        }
    }
    packet
}

/// Builds a CONNECT that asks to resume the session of `client_id` (see
/// `spec_connect_resume`).
pub fn build_connect_resume(client_id: &str, session_expiry: u32) -> (packet: Vec<u8>)
    requires
        encode_utf8(client_id@).len() <= 65535,
    ensures
        packet@ == spec_connect_resume(client_id@, session_expiry),
{
    let mut body: Vec<u8> = Vec::new();
    put_connect_preamble(&mut body);
    body.push(0x00);
    put_u16(&mut body, 60);
    let mut props: Vec<u8> = Vec::new();
    props.push(0x11);
    put_u32(&mut props, session_expiry);
    encode_variable_int(&mut body, props.len() as u32);
    put_slice(&mut body, props.as_slice());
    put_mqtt_string(&mut body, client_id);
    let packet = wrap_fixed_header(0x10, body.as_slice());
    proof {
        let p = seq![0x11u8] + be_u32_bytes(session_expiry as nat);
        assert(props@ =~= p);
        assert(body@ =~= connect_preamble() + seq![0x00u8] + be_u16_bytes(60) + varint_encoding(
            p.len(),
        ) + p + string_encoding(client_id@));
    }
    packet
}

/// Builds a CONNECT with an empty client id (see
/// `spec_connect_empty_client_id`).
pub fn build_connect_empty_client_id() -> (packet: Vec<u8>)
    ensures
        packet@ == spec_connect_empty_client_id(),
{
    let mut body: Vec<u8> = Vec::new();
    put_connect_preamble(&mut body);
    body.push(0x02);
    put_u16(&mut body, 60);
    body.push(0);
    proof {
        reveal_strlit("");
        lemma_ascii_encoding_len(""@);
    }
    put_mqtt_string(&mut body, "");
    let packet = wrap_fixed_header(0x10, body.as_slice());
    proof {
        assert(""@ =~= Seq::<char>::empty());
        assert(body@ =~= connect_preamble() + seq![0x02u8] + be_u16_bytes(60) + seq![0x00u8]
            + string_encoding(Seq::empty()));
    }
    packet
}

// ---------------------------------------------------------------------------
// Laws
// ---------------------------------------------------------------------------
/// The encoding of a value below `128^(4 - k)` is read back as that value
/// by the decoder that starts counting bytes at `k`, wherever the encoding
/// sits in a buffer.
proof fn lemma_varint_round_trip_at(d: Seq<u8>, i: int, v: nat, k: nat)
    requires
        k < 4,
        v < pow128((4 - k) as nat),
        0 <= i,
        i + varint_encoding(v).len() <= d.len(),
        d.subrange(i, i + varint_encoding(v).len()) == varint_encoding(v),
    ensures
        varint_from(d, i, k) == Some((v as int, i + varint_encoding(v).len())),
    decreases v,
{
    reveal_with_fuel(pow128, 5);
    let e = varint_encoding(v);
    assert(d[i] == d.subrange(i, i + e.len())[0]);
    if v >= 128 {
        let rest = varint_encoding(v / 128);
        assert(e == seq![((v % 128) + 128) as u8] + rest);
        assert(k < 3) by {
            if k == 3 {
                assert(pow128(1) == 128);
            }
        }
        assert(v / 128 < pow128((3 - k) as nat)) by {
            assert(pow128((4 - k) as nat) == 128 * pow128((3 - k) as nat));
        }
        assert(d.subrange(i + 1, i + 1 + rest.len()) =~= rest) by {
            assert forall|j: int| 0 <= j < rest.len() implies d[i + 1 + j] == rest[j] by {
                assert(d[i + 1 + j] == d.subrange(i, i + e.len())[1 + j]);
            }
        }
        lemma_varint_round_trip_at(d, i + 1, v / 128, k + 1);
    }
}

/// What the encoder writes, the decoder reads: the variable byte encoding of
/// any value below 2^28, followed by any bytes, is decoded to that value and
/// ends right after the encoding.
pub proof fn law_varint_round_trip(v: u32, rest: Seq<u8>)
    requires
        v < 268435456,
    ensures
        spec_varint(varint_encoding(v as nat) + rest, 0) == Some(
            (v as int, varint_encoding(v as nat).len() as int),
        ),
{
    reveal_with_fuel(pow128, 5);
    let e = varint_encoding(v as nat);
    let d = e + rest;
    assert(d.subrange(0, e.len() as int) =~= e);
    lemma_varint_round_trip_at(d, 0, v as nat, 0);
}

/// What the encoder writes, the decoder reads: a length-prefixed string is
/// decoded to the same characters, followed by any bytes, and ends right
/// after the encoding.
pub proof fn law_string_round_trip(s: Seq<char>, rest: Seq<u8>)
    requires
        encode_utf8(s).len() <= 65535,
    ensures
        spec_decode_string(string_encoding(s) + rest, 0) == Some(
            (s, string_encoding(s).len() as int),
        ),
{
    let b = encode_utf8(s);
    let d = string_encoding(s) + rest;
    encode_utf8_valid_utf8(s);
    encode_utf8_decode_utf8(s);
    assert(be_u16_at(d, 0) == b.len());
    assert(d.subrange(2, 2 + b.len() as int) =~= b);
}

} // verus!
