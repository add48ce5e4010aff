//! Between the stream and the session: payloads into frames on the way out,
//! frames into events on the way in.

use crate::frame::{
    data_frame, lemma_parse_wire, parse_frame, Frame, FrameView, Parse, PAYLOAD_CEILING,
    TAG_CONSUMER_READY, TAG_PRODUCER_READY,
};
use crate::generator::generate_random_numbers;
use crate::payload::{
    batch_from_wire, batch_wire, config_from_wire, config_wire, deserialize_batch,
    deserialize_config, lemma_batch_round_trip, lemma_batch_wire_len, lemma_config_round_trip,
    serialize_batch, serialize_config, PayloadError, SessionConfig, BATCH_SIZE_LIMIT,
};
use crate::reader::ReadStep;
use crate::session::{Event, EventView};
use crate::turn::TurnRole;
use vstd::prelude::*;

verus! {

/// The data frame around a payload that the encoder gave. There is none if
/// the encoder gave no payload or the payload reaches the ceiling.
pub fn frame_payload(serialized: Result<Vec<u8>, PayloadError>) -> (bytes: Option<Vec<u8>>)
    ensures
        match serialized {
            Ok(payload) => if payload@.len() < PAYLOAD_CEILING {
                bytes matches Some(b) && b@ == FrameView::Data(payload@).wire()
            } else {
                bytes is None
            },
            Err(_) => bytes is None,
        },
{
    match serialized {
        Ok(payload) => data_frame(payload.as_slice()),
        Err(_) => None,
    }
}

/// The data frame that carries a configuration. Every configuration has
/// one: its payload is sixteen bytes long.
pub fn config_frame(config: &SessionConfig) -> (bytes: Option<Vec<u8>>)
    ensures
        bytes matches Some(b) && b@ == FrameView::Data(config_wire(*config)).wire(),
{
    proof {
        lemma_config_round_trip(*config);
    }
    frame_payload(serialize_config(config))
}

/// The data frame that carries a batch. A batch has one exactly if its
/// payload, eight bytes and four for each number, stays under the ceiling.
pub fn batch_frame(numbers: &Vec<u32>) -> (bytes: Option<Vec<u8>>)
    ensures
        8 + 4 * numbers@.len() < PAYLOAD_CEILING ==> (bytes matches Some(b) && b@
            == FrameView::Data(batch_wire(numbers@)).wire()),
        8 + 4 * numbers@.len() >= PAYLOAD_CEILING ==> bytes is None,
{
    proof {
        lemma_batch_wire_len(numbers@);
    }
    frame_payload(serialize_batch(numbers))
}

/// A producer's turn: a fresh batch of `batch_size` random numbers and the
/// data frame that carries it. A batch size whose payload stays under the
/// ceiling always gives both. A larger one gives neither, and no batch is
/// generated for it.
pub fn produce(batch_size: u64) -> (made: Option<(Vec<u32>, Vec<u8>)>)
    ensures
        8 + 4 * batch_size < PAYLOAD_CEILING ==> (made matches Some((numbers, bytes))
            && numbers@.len() == batch_size && bytes@ == FrameView::Data(
            batch_wire(numbers@),
        ).wire()),
        8 + 4 * batch_size >= PAYLOAD_CEILING ==> made is None,
{
    if batch_size >= BATCH_SIZE_LIMIT as u64 {
        return None;
    }
    let numbers: Vec<u32> = generate_random_numbers(batch_size as usize);
    match batch_frame(&numbers) {
        Some(bytes) => Some((numbers, bytes)),
        None => None,
    }
}

/// The readiness frame of a side in the given role.
pub fn readiness_frame(role: TurnRole) -> (bytes: Vec<u8>)
    ensures
        bytes@ == match role {
            TurnRole::Producer => FrameView::ProducerReady.wire(),
            TurnRole::Consumer => FrameView::ConsumerReady.wire(),
        },
{
    let mut bytes: Vec<u8> = Vec::new();
    match role {
        TurnRole::Producer => bytes.push(TAG_PRODUCER_READY),
        TurnRole::Consumer => bytes.push(TAG_CONSUMER_READY),
    }
    bytes
}

/// What to report for the payload of the first frame.
pub fn config_event(decoded: Result<SessionConfig, PayloadError>) -> (event: Event)
    ensures
        event@ == match decoded {
            Ok(config) => EventView::Config(config),
            Err(_) => EventView::Garbled,
        },
{
    match decoded {
        Ok(config) => Event::Config(config),
        Err(_) => Event::Garbled,
    }
}

/// What to report for the payload of a later data frame.
pub fn batch_event(decoded: Result<Vec<u32>, PayloadError>) -> (event: Event)
    ensures
        event@ == match decoded {
            Ok(numbers) => EventView::Batch(numbers@),
            Err(_) => EventView::Garbled,
        },
{
    match decoded {
        Ok(numbers) => Event::Batch(numbers),
        Err(_) => Event::Garbled,
    }
}

/// The event that a frame amounts to. The payload of a data frame is read as
/// the configuration if the session expects one, and as a batch otherwise; a
/// payload that holds no such value is garbled.
pub open spec fn event_of(frame: FrameView, expects_config: bool) -> EventView {
    match frame {
        FrameView::End => EventView::End,
        FrameView::ProducerReady | FrameView::ConsumerReady => EventView::Control,
        FrameView::Data(payload) => if expects_config {
            match config_from_wire(payload) {
                Some(config) => EventView::Config(config),
                None => EventView::Garbled,
            }
        } else {
            match batch_from_wire(payload) {
                Some(numbers) => EventView::Batch(numbers),
                None => EventView::Garbled,
            }
        },
    }
}

/// What to report for a frame that arrived.
pub fn frame_event(frame: Frame, expects_config: bool) -> (event: Event)
    ensures
        event@ == event_of(frame@, expects_config),
{
    match frame {
        Frame::End => Event::End,
        Frame::ProducerReady => Event::Control,
        Frame::ConsumerReady => Event::Control,
        Frame::Data(payload) => if expects_config {
            config_event(deserialize_config(payload.as_slice()))
        } else {
            batch_event(deserialize_batch(payload.as_slice()))
        },
    }
}

/// What to report for a byte that was read while the confirmation was
/// awaited. The two readiness tags are readiness frames, which confirm
/// nothing; every other byte is the confirmation.
pub fn confirm_event(byte: u8) -> (event: Event)
    ensures
        event@ == if byte == TAG_PRODUCER_READY || byte == TAG_CONSUMER_READY {
            EventView::Control
        } else {
            EventView::Confirm(byte)
        },
{
    if byte == TAG_PRODUCER_READY || byte == TAG_CONSUMER_READY {
        Event::Control
    } else {
        Event::Confirm(byte)
    }
}

/// What to report once the reader has taken in a chunk: nothing while the
/// frame is incomplete, the frame's event once it is whole, and the refusal
/// if the bytes form no frame.
pub fn read_event(step: ReadStep, expects_config: bool) -> (event: Option<Event>)
    ensures
        match step {
            ReadStep::Continue => event is None,
            ReadStep::Failed(e) => event matches Some(ev) && ev@ == EventView::Rejected(e),
            ReadStep::Complete(frame) => event matches Some(ev) && ev@ == event_of(
                frame@,
                expects_config,
            ),
        },
{
    match step {
        ReadStep::Continue => None,
        ReadStep::Failed(e) => Some(Event::Rejected(e)),
        ReadStep::Complete(frame) => Some(frame_event(frame, expects_config)),
    }
}

/// A batch survives the transfer. Its payload, put into a data frame, is read
/// back from the frame's bytes whatever follows them on the stream, the batch
/// is read back from the payload, and the consumer is told of that batch.
/// This holds of every batch whose payload stays under the ceiling; a larger
/// one has no frame.
pub proof fn lemma_batch_survives_transfer(numbers: Seq<u32>, rest: Seq<u8>)
    requires
        8 + 4 * numbers.len() < PAYLOAD_CEILING,
    ensures
        FrameView::Data(batch_wire(numbers)).fits(),
        parse_frame(FrameView::Data(batch_wire(numbers)).wire() + rest) == Parse::Complete(
            FrameView::Data(batch_wire(numbers)),
            13 + 4 * numbers.len(),
        ),
        batch_from_wire(batch_wire(numbers)) == Some(numbers),
        event_of(FrameView::Data(batch_wire(numbers)), false) == EventView::Batch(numbers),
{
    let frame: FrameView = FrameView::Data(batch_wire(numbers));
    lemma_batch_wire_len(numbers);
    lemma_parse_wire(frame, rest);
    lemma_batch_round_trip(numbers);
    crate::endian::lemma_le_bytes_len(batch_wire(numbers).len(), 4);
}

/// A configuration survives the transfer in the same way.
pub proof fn lemma_config_survives_transfer(config: SessionConfig, rest: Seq<u8>)
    ensures
        FrameView::Data(config_wire(config)).fits(),
        parse_frame(FrameView::Data(config_wire(config)).wire() + rest) == Parse::Complete(
            FrameView::Data(config_wire(config)),
            21,
        ),
        config_from_wire(config_wire(config)) == Some(config),
        event_of(FrameView::Data(config_wire(config)), true) == EventView::Config(config),
{
    let frame: FrameView = FrameView::Data(config_wire(config));
    lemma_config_round_trip(config);
    lemma_parse_wire(frame, rest);
    crate::endian::lemma_le_bytes_len(config_wire(config).len(), 4);
}

} // verus!
