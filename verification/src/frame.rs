//! The wire frame: one tag byte and, for data frames, a four-byte
//! little-endian length followed by that many payload bytes.

use crate::endian::{
    append_le, le_bytes, le_value, lemma_le_bytes_len, lemma_le_round_trip, lemma_le_value_bound,
    lemma_pow256_values, read_le,
};
use vstd::prelude::*;

verus! {

/// Tag byte of a data frame.
pub const TAG_DATA: u8 = 0x01;

/// Tag byte of the frame that ends a session.
pub const TAG_END: u8 = 0x02;

/// Tag byte of the producer's liveness ping.
pub const TAG_PRODUCER_READY: u8 = 0x03;

/// Tag byte of the consumer's liveness ping.
pub const TAG_CONSUMER_READY: u8 = 0x04;

/// Sanity ceiling on the payload length of a data frame. A length at or above
/// it never describes a legitimate transfer.
pub const PAYLOAD_CEILING: u32 = 1_000_000;

/// Bytes in front of a data frame's payload: the tag and the length.
pub const DATA_HEADER_LEN: usize = 5;

/// One protocol message.
#[derive(Debug, Clone, PartialEq, Eq)]
pub enum Frame {
    /// Carries a payload.
    Data(Vec<u8>),
    /// Ends the session.
    End,
    /// Liveness ping of the side that is about to produce.
    ProducerReady,
    /// Liveness ping of the side that is waiting to consume.
    ConsumerReady,
}

/// A frame as a mathematical value.
pub enum FrameView {
    Data(Seq<u8>),
    End,
    ProducerReady,
    ConsumerReady,
}

impl View for Frame {
    type V = FrameView;

    open spec fn view(&self) -> FrameView {
        match self {
            Frame::Data(payload) => FrameView::Data(payload@),
            Frame::End => FrameView::End,
            Frame::ProducerReady => FrameView::ProducerReady,
            Frame::ConsumerReady => FrameView::ConsumerReady,
        }
    }
}

impl FrameView {
    /// The tag byte that opens this frame on the wire.
    pub open spec fn tag(self) -> u8 {
        match self {
            FrameView::Data(_) => TAG_DATA,
            FrameView::End => TAG_END,
            FrameView::ProducerReady => TAG_PRODUCER_READY,
            FrameView::ConsumerReady => TAG_CONSUMER_READY,
        }
    }

    /// Whether the frame may travel: a data payload stays under the ceiling.
    pub open spec fn fits(self) -> bool {
        match self {
            FrameView::Data(payload) => payload.len() < PAYLOAD_CEILING,
            _ => true,
        }
    }

    /// The bytes of this frame on the wire.
    pub open spec fn wire(self) -> Seq<u8> {
        match self {
            FrameView::Data(payload) => seq![TAG_DATA] + le_bytes(payload.len(), 4) + payload,
            _ => seq![self.tag()],
        }
    }
}

/// Why bytes were refused as a frame.
#[derive(Debug, Clone, Copy, PartialEq, Eq, Structural)]
pub enum FrameError {
    /// The tag byte, carried here, is none of the four defined values.
    ProtocolViolation(u8),
    /// A data frame claims the length carried here, which is at or above the
    /// ceiling.
    FrameCorrupt(u32),
    /// The bytes stop before the frame is complete.
    Truncated,
}

/// What a byte sequence holds at its front.
pub enum Parse {
    /// A whole frame, and the number of bytes it occupies.
    Complete(FrameView, nat),
    /// Bytes that no frame starts with.
    Refused(FrameError),
    /// The beginning of a frame; more bytes are needed to tell.
    Partial,
}

/// Reads one frame off the front of `bytes`.
///
/// The length of a data frame is judged as soon as its four bytes are there:
/// a length at or above the ceiling is refused whether or not any payload
/// follows.
pub open spec fn parse_frame(bytes: Seq<u8>) -> Parse {
    if bytes.len() == 0 {
        Parse::Partial
    } else if bytes[0] == TAG_END {
        Parse::Complete(FrameView::End, 1)
    } else if bytes[0] == TAG_PRODUCER_READY {
        Parse::Complete(FrameView::ProducerReady, 1)
    } else if bytes[0] == TAG_CONSUMER_READY {
        Parse::Complete(FrameView::ConsumerReady, 1)
    } else if bytes[0] != TAG_DATA {
        Parse::Refused(FrameError::ProtocolViolation(bytes[0]))
    } else if bytes.len() < 5 {
        Parse::Partial
    } else {
        let claimed: nat = le_value(bytes.subrange(1, 5));
        if claimed >= PAYLOAD_CEILING {
            Parse::Refused(FrameError::FrameCorrupt(claimed as u32))
        } else if bytes.len() < 5 + claimed {
            Parse::Partial
        } else {
            Parse::Complete(FrameView::Data(bytes.subrange(5, 5 + claimed as int)), 5 + claimed)
        }
    }
}

/// A data frame that claims a length at or above the ceiling is refused as
/// corrupt on its header alone: whether payload bytes follow, and how many,
/// plays no part.
pub proof fn lemma_oversized_length_refused(bytes: Seq<u8>)
    requires
        bytes.len() >= 5,
        bytes[0] == TAG_DATA,
        le_value(bytes.subrange(1, 5)) >= PAYLOAD_CEILING,
    ensures
        parse_frame(bytes) == Parse::Refused(
            FrameError::FrameCorrupt(le_value(bytes.subrange(1, 5)) as u32),
        ),
        parse_frame(bytes.subrange(0, 5)) == parse_frame(bytes),
{
    let header: Seq<u8> = bytes.subrange(0, 5);
    assert(header.subrange(1, 5) =~= bytes.subrange(1, 5));
}

/// Bytes that open with anything but one of the four tags are refused as a
/// protocol violation, whatever follows.
pub proof fn lemma_unknown_tag_refused(bytes: Seq<u8>)
    requires
        bytes.len() >= 1,
        bytes[0] != TAG_DATA,
        bytes[0] != TAG_END,
        bytes[0] != TAG_PRODUCER_READY,
        bytes[0] != TAG_CONSUMER_READY,
    ensures
        parse_frame(bytes) == Parse::Refused(FrameError::ProtocolViolation(bytes[0])),
{
}

/// A frame that fits is read back from its wire bytes, whatever follows them.
pub proof fn lemma_parse_wire(frame: FrameView, rest: Seq<u8>)
    requires
        frame.fits(),
    ensures
        parse_frame(frame.wire() + rest) == Parse::Complete(frame, frame.wire().len()),
{
    let bytes: Seq<u8> = frame.wire() + rest;
    match frame {
        FrameView::Data(payload) => {
            let n: nat = payload.len();
            lemma_le_bytes_len(n, 4);
            lemma_pow256_values();
            lemma_le_round_trip(n, 4);
            assert(bytes.subrange(1, 5) =~= le_bytes(n, 4));
            assert(bytes.subrange(5, 5 + n as int) =~= payload);
            assert(bytes[0] == TAG_DATA);
        },
        _ => {
            assert(bytes[0] == frame.tag());
        },
    }
}

/// Encodes a frame. A data frame whose payload reaches the ceiling has no
/// encoding.
pub fn encode(frame: &Frame) -> (bytes: Option<Vec<u8>>)
    ensures
        frame@.fits() ==> (bytes matches Some(b) && b@ == frame@.wire()),
        !frame@.fits() ==> bytes is None,
{
    match frame {
        Frame::Data(payload) => data_frame(payload.as_slice()),
        Frame::End => Some(control_frame(TAG_END)),
        Frame::ProducerReady => Some(control_frame(TAG_PRODUCER_READY)),
        Frame::ConsumerReady => Some(control_frame(TAG_CONSUMER_READY)),
    }
}

/// The wire bytes of a data frame around `payload`, if the payload stays
/// under the ceiling.
pub fn data_frame(payload: &[u8]) -> (bytes: Option<Vec<u8>>)
    ensures
        payload@.len() < PAYLOAD_CEILING ==> (bytes matches Some(b) && b@ == FrameView::Data(
            payload@,
        ).wire()),
        payload@.len() >= PAYLOAD_CEILING ==> bytes is None,
{
    let n: usize = payload.len();
    if n >= PAYLOAD_CEILING as usize {
        return None;
    }
    let mut out: Vec<u8> = Vec::new();
    out.push(TAG_DATA);
    append_le(&mut out, n as u64, 4);
    let mut i: usize = 0;
    while i < n
        invariant
            i <= n,
            n == payload@.len(),
            out@ == seq![TAG_DATA] + le_bytes(n as nat, 4) + payload@.take(i as int),
        decreases n - i,
    {
        out.push(payload[i]);
        assert(payload@.take(i as int).push(payload@[i as int]) =~= payload@.take(i + 1));
        i = i + 1;
    }
    assert(payload@.take(n as int) =~= payload@);
    Some(out)
}

/// The wire bytes of the frame that ends a session.
pub fn end_frame() -> (bytes: Vec<u8>)
    ensures
        bytes@ == FrameView::End.wire(),
{
    control_frame(TAG_END)
}

fn control_frame(tag: u8) -> (bytes: Vec<u8>)
    ensures
        bytes@ == seq![tag],
{
    let mut out: Vec<u8> = Vec::new();
    out.push(tag);
    out
}

/// Decodes the frame at the front of `bytes` and says how many bytes it
/// occupies. Input that stops short of a whole frame is an error, not a
/// frame.
pub fn decode(bytes: &[u8]) -> (result: Result<(Frame, usize), FrameError>)
    ensures
        match parse_frame(bytes@) {
            Parse::Complete(frame, used) => result matches Ok((f, n)) && f@ == frame && n == used,
            Parse::Refused(e) => result == Err::<(Frame, usize), FrameError>(e),
            Parse::Partial => result == Err::<(Frame, usize), FrameError>(FrameError::Truncated),
        },
{
    let total: usize = bytes.len();
    if total == 0 {
        return Err(FrameError::Truncated);
    }
    let tag: u8 = bytes[0];
    if tag == TAG_END {
        Ok((Frame::End, 1))
    } else if tag == TAG_PRODUCER_READY {
        Ok((Frame::ProducerReady, 1))
    } else if tag == TAG_CONSUMER_READY {
        Ok((Frame::ConsumerReady, 1))
    } else if tag != TAG_DATA {
        Err(FrameError::ProtocolViolation(tag))
    } else if total < DATA_HEADER_LEN {
        Err(FrameError::Truncated)
    } else {
        let claimed: u64 = read_le(bytes, 1, 4);
        proof {
            lemma_le_value_bound(bytes@.subrange(1, 5));
            lemma_pow256_values();
        }
        if claimed >= PAYLOAD_CEILING as u64 {
            Err(FrameError::FrameCorrupt(claimed as u32))
        } else if total - DATA_HEADER_LEN < claimed as usize {
            Err(FrameError::Truncated)
        } else {
            let end: usize = DATA_HEADER_LEN + claimed as usize;
            let payload: Vec<u8> = copy_range(bytes, DATA_HEADER_LEN, end);
            Ok((Frame::Data(payload), end))
        }
    }
}

/// A fresh vector holding `bytes[start..end]`.
fn copy_range(bytes: &[u8], start: usize, end: usize) -> (out: Vec<u8>)
    requires
        start <= end <= bytes@.len(),
    ensures
        out@ == bytes@.subrange(start as int, end as int),
{
    let mut out: Vec<u8> = Vec::new();
    let mut i: usize = start;
    while i < end
        invariant
            start <= i <= end <= bytes@.len(),
            out@ == bytes@.subrange(start as int, i as int),
        decreases end - i,
    {
        out.push(bytes[i]);
        assert(bytes@.subrange(start as int, i as int).push(bytes@[i as int]) =~= bytes@.subrange(
            start as int,
            i + 1,
        ));
        i = i + 1;
    }
    out
}

} // verus!
