//! Scanners over raw byte streams received from a broker: they walk
//! concatenated MQTT packets by their fixed headers without decoding the
//! packets fully.
use crate::packet_parser::{
    be_u16_at, decode_variable_int, lemma_varint_from_bounds, spec_varint, varint_from,
};
use vstd::prelude::*;
use vstd::slice::{slice_subrange, slice_to_vec};

verus! {

/// The index of the reason code in a CONNACK: the byte after the
/// acknowledge flags that follow the remaining length. When the remaining
/// length never ends, the index is the end of the buffer (or 1 for an empty
/// buffer).
pub open spec fn connack_reason_index_from(d: Seq<u8>, idx: int) -> int
    decreases d.len() - idx,
{
    if idx >= d.len() {
        idx
    } else if d[idx] < 128 {
        idx + 2
    } else {
        connack_reason_index_from(d, idx + 1)
    }
}

pub open spec fn spec_connack_reason_index(d: Seq<u8>) -> int {
    connack_reason_index_from(d, 1)
}

/// Finds the index of the reason code of a CONNACK packet.
pub fn find_connack_reason_code_index(data: &[u8]) -> (r: usize)
    requires
        data@.len() < usize::MAX,
    ensures
        r as int == spec_connack_reason_index(data@),
{
    let mut idx: usize = 1;
    loop
        invariant
            1 <= idx,
            idx == 1 || idx <= data@.len(),
            data@.len() < usize::MAX,
            connack_reason_index_from(data@, 1) == connack_reason_index_from(data@, idx as int),
        decreases data@.len() + 1 - idx,
    {
        if idx >= data.len() {
            return idx;
        }
        let byte = data[idx];
        if byte & 0x80 == 0 {
            assert(byte & 0x80 == 0 ==> byte < 128) by (bit_vector);
            return idx + 2;
        }
        assert(byte & 0x80 != 0 ==> byte >= 128) by (bit_vector);
        idx = idx + 1;
    }
}

/// What the scan of one fixed header at `idx` finds: the packet type (high
/// nibble of the first byte), the first byte, the start of the body and the
/// end that the remaining length announces; `None` when the remaining length
/// is truncated or malformed.
pub open spec fn header_at(d: Seq<u8>, idx: int) -> Option<(u8, u8, int, int)> {
    match spec_varint(d, idx + 1) {
        Some((remaining, body_start)) => Some(
            (d[idx] >> 4, d[idx], body_start, body_start + remaining),
        ),
        None => None,
    }
}

/// The number of PUBLISH packets (type 3) whose fixed header is found in the
/// stream from `idx` on. A final packet whose body is cut short is counted;
/// a final fixed header that is cut short or malformed is not.
pub open spec fn publish_count_from(d: Seq<u8>, idx: int) -> int
    decreases d.len() - idx,
{
    if idx < 0 || idx >= d.len() {
        0
    } else {
        match header_at(d, idx) {
            None => 0,
            Some((packet_type, _first, body_start, body_end)) => {
                let c: int = if packet_type == 3 {
                    1
                } else {
                    0
                };
                if body_end > d.len() {
                    c
                } else {
                    proof {
                        lemma_varint_from_bounds(d, idx + 1, 0);
                    }
                    c + publish_count_from(d, body_end)
                }
            },
        }
    }
}

/// The packet identifiers of the complete QoS 1/2 PUBLISH packets in the
/// stream from `idx` on: the two bytes after the topic, when they lie inside
/// the packet body.
pub open spec fn publish_ids_from(d: Seq<u8>, idx: int) -> Seq<u16>
    decreases d.len() - idx,
{
    if idx < 0 || idx >= d.len() {
        Seq::empty()
    } else {
        match header_at(d, idx) {
            None => Seq::empty(),
            Some((packet_type, first, body_start, body_end)) => {
                if body_end > d.len() {
                    Seq::empty()
                } else {
                    let qos = (first >> 1) & 0x03;
                    let here: Seq<u16> = if packet_type == 3 && qos > 0 && body_start + 2
                        <= body_end {
                        let pid_offset = body_start + 2 + be_u16_at(d, body_start);
                        if pid_offset + 2 <= body_end {
                            seq![be_u16_at(d, pid_offset) as u16]
                        } else {
                            Seq::empty()
                        }
                    } else {
                        Seq::empty()
                    };
                    proof {
                        lemma_varint_from_bounds(d, idx + 1, 0);
                    }
                    here + publish_ids_from(d, body_end)
                }
            },
        }
    }
}

/// A stream holds at most one packet per two bytes, so the count stays
/// below the length of the stream.
proof fn lemma_publish_count_bound(d: Seq<u8>, idx: int)
    requires
        0 <= idx,
    ensures
        0 <= publish_count_from(d, idx) <= if idx <= d.len() {
            d.len() - idx
        } else {
            0
        },
    decreases d.len() - idx,
{
    if idx < d.len() {
        lemma_varint_from_bounds(d, idx + 1, 0);
        if let Some((t, f, bs, be)) = header_at(d, idx) {
            if be <= d.len() {
                lemma_publish_count_bound(d, be);
            }
        }
    }
}

/// Reads the fixed header at `idx`: the first byte and the remaining
/// length, as `header_at` describes.
fn read_header(data: &[u8], idx: usize) -> (r: Option<(u8, usize, usize)>)
    requires
        idx < data@.len(),
    ensures
        match r {
            Some((first, body_start, body_end)) => header_at(data@, idx as int) == Some(
                (first >> 4, first, body_start as int, body_end as int),
            ) && idx < body_start <= body_end <= data@.len(),
            None => header_at(data@, idx as int) is None || (header_at(data@, idx as int) matches Some(
                (_, _, _, e),
            ) && e > data@.len()),
        },
{
    let first = data[idx];
    match decode_variable_int(data, idx + 1) {
        Some((remaining, body_start)) => {
            proof {
                lemma_varint_from_bounds(data@, idx + 1, 0);
            }
            if remaining as usize > data.len() - body_start {
                None
            } else {
                Some((first, body_start, body_start + remaining as usize))
            }
        },
        None => None,
    }
}

/// Counts the PUBLISH packets (by their fixed headers) in a byte stream.
pub fn count_publish_headers(data: &[u8]) -> (count: u32)
    requires
        data@.len() <= u32::MAX,
    ensures
        count as int == publish_count_from(data@, 0),
{
    let mut count: u32 = 0;
    let mut idx: usize = 0;
    while idx < data.len()
        invariant
            idx <= data@.len(),
            data@.len() <= u32::MAX,
            count as int + publish_count_from(data@, idx as int) == publish_count_from(data@, 0),
            count <= idx,
        decreases data@.len() - idx,
    {
        let first_byte = data[idx];
        let packet_type = first_byte >> 4;
        proof {
            lemma_publish_count_bound(data@, idx as int);
            lemma_varint_from_bounds(data@, idx + 1, 0);
        }
        match read_header(data, idx) {
            Some((_first, _body_start, body_end)) => {
                if packet_type == 3 {
                    count = count + 1;
                }
                idx = body_end;
            },
            None => {
                match decode_variable_int(data, idx + 1) {
                    Some(_) => {
                        if packet_type == 3 {
                            count = count + 1;
                        }
                    },
                    None => {},
                }
                return count;
            },
        }
    }
    count
}

/// Counts the PUBLISH packets in a byte stream and collects the packet
/// identifiers of those sent with QoS 1 or 2.
pub fn extract_publish_ids(data: &[u8]) -> (r: (u32, Vec<u16>))
    requires
        data@.len() <= u32::MAX,
    ensures
        r.0 as int == publish_count_from(data@, 0),
        r.1@ == publish_ids_from(data@, 0),
{
    let mut count: u32 = 0;
    let mut ids: Vec<u16> = Vec::new();
    let mut idx: usize = 0;
    while idx < data.len()
        invariant
            idx <= data@.len(),
            data@.len() <= u32::MAX,
            count as int + publish_count_from(data@, idx as int) == publish_count_from(data@, 0),
            ids@ + publish_ids_from(data@, idx as int) == publish_ids_from(data@, 0),
            count <= idx,
        decreases data@.len() - idx,
    {
        let first_byte = data[idx];
        let packet_type = first_byte >> 4;
        let qos = (first_byte >> 1) & 0x03;
        proof {
            lemma_publish_count_bound(data@, idx as int);
            lemma_varint_from_bounds(data@, idx + 1, 0);
        }
        match read_header(data, idx) {
            Some((_first, body_start, body_end)) => {
                let ghost old_ids = ids@;
                if packet_type == 3 {
                    count = count + 1;
                    if qos > 0 && body_end - body_start >= 2 {
                        let topic_len = (data[body_start] as usize) * 256 + data[body_start
                            + 1] as usize;
                        let after_len = body_start + 2;
                        if topic_len <= body_end - after_len && body_end - after_len - topic_len
                            >= 2 {
                            let pid_offset = after_len + topic_len;
                            let packet_id = (data[pid_offset] as u16) * 256 + data[pid_offset
                                + 1] as u16;
                            ids.push(packet_id);
                        }
                    }
                }
                proof {
                    assert(ids@ + publish_ids_from(data@, body_end as int) =~= old_ids
                        + publish_ids_from(data@, idx as int));
                }
                idx = body_end;
            },
            None => {
                match decode_variable_int(data, idx + 1) {
                    Some(_) => {
                        if packet_type == 3 {
                            count = count + 1;
                        }
                    },
                    None => {},
                }
                assert(ids@ =~= ids@ + publish_ids_from(data@, idx as int));
                return (count, ids);
            },
        }
    }
    assert(ids@ =~= ids@ + publish_ids_from(data@, idx as int));
    (count, ids)
}

/// A SUBACK packet: first byte `0x90`, at least four bytes, a remaining
/// length of at least three that fits in the buffer, the packet identifier,
/// the property length, and the reason codes from after the properties up
/// to the end of the packet.
pub open spec fn spec_parse_suback(d: Seq<u8>) -> Option<(u16, Seq<u8>)> {
    if d.len() < 4 || d[0] != 0x90 {
        None
    } else {
        match spec_varint(d, 1) {
            None => None,
            Some((remaining, payload_start)) => {
                if d.len() < payload_start + remaining || remaining < 3 {
                    None
                } else {
                    match spec_varint(d, payload_start + 2) {
                        None => None,
                        Some((props_len, after_len)) => {
                            let codes_start = after_len + props_len;
                            let end = payload_start + remaining;
                            if codes_start > end {
                                None
                            } else {
                                Some(
                                    (
                                        be_u16_at(d, payload_start) as u16,
                                        d.subrange(codes_start, end),
                                    ),
                                )
                            }
                        }
                    }
                }
            },
        }
    }
}

/// Parses a SUBACK packet into its packet identifier and reason codes.
pub fn parse_suback_bytes(data: &[u8]) -> (r: Option<(u16, Vec<u8>)>)
    ensures
        match r {
            Some((pid, codes)) => spec_parse_suback(data@) == Some((pid, codes@)),
            None => spec_parse_suback(data@) is None,
        },
{
    if data.len() < 4 || data[0] != 0x90 {
        return None;
    }
    let (remaining_len, payload_start) = match decode_variable_int(data, 1) {
        Some(r) => r,
        None => {
            return None;
        },
    };
    proof {
        lemma_varint_from_bounds(data@, 1, 0);
    }
    if remaining_len as usize > data.len() - payload_start || remaining_len < 3 {
        return None;
    }
    let packet_id = (data[payload_start] as u16) * 256 + data[payload_start + 1] as u16;
    let idx = payload_start + 2;
    let (props_len, after_len) = match decode_variable_int(data, idx) {
        Some(r) => r,
        None => {
            return None;
        },
    };
    proof {
        lemma_varint_from_bounds(data@, idx as int, 0);
    }
    let end = payload_start + remaining_len as usize;
    if props_len as usize > end || after_len > end - props_len as usize {
        return None;
    }
    let codes_start = after_len + props_len as usize;
    let codes = slice_to_vec(slice_subrange(data, codes_start, end));
    Some((packet_id, codes))
}

// ---------------------------------------------------------------------------
// Server DISCONNECT
// ---------------------------------------------------------------------------
/// Reads a variable byte integer leniently from `i`, the `k`-th byte of it:
/// the 7-bit groups read so far count when the data ends or the fourth
/// byte still has its continuation bit set. The result is the value and the
/// index after the bytes read.
pub open spec fn loose_varint_from(d: Seq<u8>, i: int, k: nat) -> (int, int)
    decreases 4 - k,
{
    if i < 0 || i >= d.len() || k >= 4 {
        (0, i)
    } else if d[i] < 128 || k == 3 {
        ((d[i] % 128) as int, i + 1)
    } else {
        let (v, n) = loose_varint_from(d, i + 1, k + 1);
        (d[i] % 128 + 128 * v, n)
    }
}

/// Walks the property table of a DISCONNECT from `idx` until `end`,
/// looking for Session Expiry Interval (`0x11`). Reason String (`0x1F`) and
/// User Property (`0x26`) are stepped over; any other identifier, or a
/// length prefix cut off by the end of the data, ends the walk.
pub open spec fn session_expiry_from(d: Seq<u8>, idx: int, end: int) -> bool
    decreases d.len() - idx,
{
    if idx < 0 || idx >= end || idx >= d.len() {
        false
    } else if d[idx] == 0x11 {
        true
    } else {
        let i = idx + 1;
        if d[idx] == 0x1F {
            if i + 2 <= d.len() && i + 2 + be_u16_at(d, i) < d.len() {
                session_expiry_from(d, i + 2 + be_u16_at(d, i), end)
            } else {
                false
            }
        } else if d[idx] == 0x26 {
            if i + 2 <= d.len() {
                let j = i + 2 + be_u16_at(d, i);
                if j + 2 <= d.len() && j + 2 + be_u16_at(d, j) < d.len() {
                    session_expiry_from(d, j + 2 + be_u16_at(d, j), end)
                } else {
                    false
                }
            } else {
                false
            }
        } else {
            false
        }
    }
}

/// Whether a server DISCONNECT carries Session Expiry Interval (`0x11`),
/// which the server must not send: after the remaining length, when it is
/// at least 2, the reason code is skipped and the property table walked.
pub open spec fn spec_disconnect_has_session_expiry(d: Seq<u8>) -> bool {
    let (remaining, after_len) = loose_varint_from(d, 1, 0);
    if remaining >= 2 {
        let (props_len, props_start) = loose_varint_from(d, after_len + 1, 0);
        session_expiry_from(d, props_start, props_start + props_len)
    } else {
        false
    }
}

/// The lenient read of a variable byte integer stays within four bytes
/// and below `128^4`.
proof fn lemma_loose_varint_bounds(d: Seq<u8>, i: int, k: nat)
    requires
        k <= 4,
    ensures
        ({
            let (v, n) = loose_varint_from(d, i, k);
            &&& 0 <= v < crate::packet_parser::pow128((4 - k) as nat)
            &&& n == i || (0 <= i < d.len() && i < n <= d.len() && n - i <= 4 - k)
        }),
    decreases 4 - k,
{
    reveal_with_fuel(crate::packet_parser::pow128, 5);
    if 0 <= i < d.len() && k < 3 && d[i] >= 128 {
        lemma_loose_varint_bounds(d, i + 1, k + 1);
        let (v, n) = loose_varint_from(d, i + 1, k + 1);
        let p = crate::packet_parser::pow128((3 - k) as nat);
        assert(crate::packet_parser::pow128((4 - k) as nat) == 128 * p);
        assert(d[i] % 128 + 128 * v < 128 * p) by (nonlinear_arith)
            requires
                0 <= d[i] % 128 < 128,
                0 <= v < p,
        ;
    }
}

/// Reads a variable byte integer leniently from `i`, its `k`-th byte (see
/// `loose_varint_from`).
fn loose_varint(data: &[u8], i: usize, k: usize) -> (r: (u32, usize))
    requires
        k <= 4,
    ensures
        r.0 as int == loose_varint_from(data@, i as int, k as nat).0,
        r.1 as int == loose_varint_from(data@, i as int, k as nat).1,
    decreases 4 - k,
{
    if i >= data.len() || k >= 4 {
        return (0, i);
    }
    let low = (data[i] % 128) as u32;
    if data[i] < 128 || k == 3 {
        return (low, i + 1);
    }
    let (v, n) = loose_varint(data, i + 1, k + 1);
    proof {
        lemma_loose_varint_bounds(data@, (i + 1) as int, (k + 1) as nat);
        reveal_with_fuel(crate::packet_parser::pow128, 5);
        assert(crate::packet_parser::pow128((3 - k) as nat) <= 2097152);
    }
    (low + 128 * v, n)
}

/// Whether a server DISCONNECT carries Session Expiry Interval (`0x11`).
pub fn disconnect_has_session_expiry(bytes: &[u8]) -> (r: bool)
    ensures
        r == spec_disconnect_has_session_expiry(bytes@),
{
    let ghost d = bytes@;
    let (remaining, after_len) = loose_varint(bytes, 1, 0);
    if remaining < 2 {
        return false;
    }
    proof {
        lemma_loose_varint_bounds(d, 1, 0);
    }
    let (props_len, props_start) = loose_varint(bytes, after_len + 1, 0);
    let end: usize = if props_len as usize > usize::MAX - props_start {
        usize::MAX
    } else {
        props_start + props_len as usize
    };
    let ghost true_end = props_start + props_len;
    let mut idx = props_start;
    let n = bytes.len();
    while idx < end && idx < n
        invariant
            d == bytes@,
            n == d.len(),
            end as int == if true_end > usize::MAX {
                usize::MAX as int
            } else {
                true_end
            },
            spec_disconnect_has_session_expiry(d) == session_expiry_from(d, idx as int, true_end),
        decreases bytes@.len() - idx,
    {
        let id = bytes[idx];
        if id == 0x11 {
            return true;
        }
        let i = idx + 1;
        if id == 0x1F {
            if bytes.len() - i < 2 {
                return false;
            }
            let l = ((bytes[i] as u16) * 256 + bytes[i + 1] as u16) as usize;
            if l >= bytes.len() - (i + 2) {
                return false;
            }
            idx = i + 2 + l;
        } else if id == 0x26 {
            if bytes.len() - i < 2 {
                return false;
            }
            let kl = ((bytes[i] as u16) * 256 + bytes[i + 1] as u16) as usize;
            if kl > bytes.len() - (i + 2) {
                return false;
            }
            let j = i + 2 + kl;
            if bytes.len() - j < 2 {
                return false;
            }
            let vl = ((bytes[j] as u16) * 256 + bytes[j + 1] as u16) as usize;
            if vl >= bytes.len() - (j + 2) {
                return false;
            }
            idx = j + 2 + vl;
        } else {
            return false;
        }
    }
    false
}

} // verus!
