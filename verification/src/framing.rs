//! Framing of one packet read from the WASI stream: the first read takes up
//! to five bytes, enough for the fixed header; the body is then made of the
//! bytes of that read past the header, and of further reads for the rest.
use crate::packet_parser::{decode_variable_int, lemma_varint_from_bounds, pow128, spec_varint};
use crate::pushback::{law_pushback_read_first, read_result, PushbackBuffer};
use vstd::prelude::*;
use vstd::slice::slice_subrange;

verus! {

/// Why the first read of a packet does not frame one.
#[derive(Debug, Clone, Copy, PartialEq, Eq, Structural)]
pub enum FrameError {
    /// The read returned no byte: the peer closed the connection.
    Closed,
    /// The bytes read do not hold a complete fixed header.
    BadHeader,
    /// The remaining length exceeds the largest packet accepted.
    TooLarge { size: u32, max: u32 },
}

/// The framing of a packet from the bytes of its first read.
#[derive(Debug, Clone, Copy, PartialEq, Eq, Structural)]
pub struct Frame {
    /// The first byte: packet type and flags.
    pub first_byte: u8,
    /// The length of the body.
    pub remaining_length: u32,
    /// Where the body's bytes already read start in the first read.
    pub body_start: usize,
    /// How many bytes of the body the first read already holds.
    pub buffered: usize,
    /// How many bytes of the body are still to be read.
    pub to_read: usize,
    /// How many bytes of the first read lie past the end of the body.
    pub excess: usize,
}

/// The framing of a packet whose first read gave `header`, with packets
/// longer than `max_packet_size` refused.
pub open spec fn spec_frame(header: Seq<u8>, max_packet_size: u32) -> Result<Frame, FrameError> {
    if header.len() == 0 {
        Err(FrameError::Closed)
    } else {
        match spec_varint(header, 1) {
            None => Err(FrameError::BadHeader),
            Some((len, body_start)) => if len > max_packet_size {
                Err(FrameError::TooLarge { size: len as u32, max: max_packet_size })
            } else {
                let available = header.len() - body_start;
                let buffered = if available < len {
                    available
                } else {
                    len
                };
                Ok(
                    Frame {
                        first_byte: header[0],
                        remaining_length: len as u32,
                        body_start: body_start as usize,
                        buffered: buffered as usize,
                        to_read: (len - buffered) as usize,
                        excess: (available - buffered) as usize,
                    },
                )
            },
        }
    }
}

/// Frames a packet from the bytes of its first read.
pub fn frame_packet(header: &[u8], max_packet_size: u32) -> (r: Result<Frame, FrameError>)
    ensures
        r == spec_frame(header@, max_packet_size),
{
    if header.len() == 0 {
        return Err(FrameError::Closed);
    }
    match decode_variable_int(header, 1) {
        None => Err(FrameError::BadHeader),
        Some((len, body_start)) => {
            proof {
                lemma_varint_from_bounds(header@, 1, 0);
            }
            if len > max_packet_size {
                Err(FrameError::TooLarge { size: len, max: max_packet_size })
            } else {
                let available = header.len() - body_start;
                let buffered: usize = if available < len as usize {
                    available
                } else {
                    len as usize
                };
                Ok(
                    Frame {
                        first_byte: header[0],
                        remaining_length: len,
                        body_start,
                        buffered,
                        to_read: len as usize - buffered,
                        excess: available - buffered,
                    },
                )
            }
        },
    }
}

/// The parts of a framed packet add up: the body is what the first read
/// held of it plus what is still to be read, and the first read is the
/// header, the buffered body bytes and the excess.
pub proof fn law_frame_accounts_for_every_byte(header: Seq<u8>, max_packet_size: u32)
    requires
        header.len() <= usize::MAX,
    ensures
        spec_frame(header, max_packet_size) matches Ok(f) ==> f.buffered + f.to_read
            == f.remaining_length && f.body_start + f.buffered + f.excess == header.len()
            && f.remaining_length <= max_packet_size,
{
    lemma_varint_from_bounds(header, 1, 0);
    reveal_with_fuel(pow128, 5);
}

/// The bytes of the first read that lie past the end of the framed packet:
/// the start of the next packet.
pub open spec fn excess_bytes(header: Seq<u8>, f: Frame) -> Seq<u8> {
    header.subrange(f.body_start + f.buffered, header.len() as int)
}

/// Hands the bytes the first read took past the packet back to the
/// stream, so that the next read returns them before any new bytes.
pub fn hand_back_excess(buffer: &mut PushbackBuffer, header: &[u8], frame: &Frame)
    requires
        frame.body_start + frame.buffered + frame.excess == header@.len(),
    ensures
        final(buffer)@ == excess_bytes(header@, *frame) + old(buffer)@,
{
    let n = header.len();
    let from = frame.body_start + frame.buffered;
    let rest = slice_subrange(header, from, n);
    buffer.pushback(rest);
}

/// Bytes read past one packet come back first on the next read: once the
/// excess of a framed first read is handed back, a read with room for it
/// starts with exactly those bytes, before whatever was pending.
pub proof fn law_over_read_bytes_come_back(
    header: Seq<u8>,
    max_packet_size: u32,
    pending: Seq<u8>,
    buf: Seq<u8>,
)
    requires
        header.len() <= usize::MAX,
        spec_frame(header, max_packet_size) is Ok,
        spec_frame(header, max_packet_size)->Ok_0.excess <= buf.len(),
    ensures
        ({
            let f = spec_frame(header, max_packet_size)->Ok_0;
            let e = excess_bytes(header, f);
            &&& e.len() == f.excess
            &&& read_result(e + pending, buf).0.subrange(0, e.len() as int) == e
        }),
{
    law_frame_accounts_for_every_byte(header, max_packet_size);
    let f = spec_frame(header, max_packet_size)->Ok_0;
    law_pushback_read_first(pending, excess_bytes(header, f), buf);
}

} // verus!
