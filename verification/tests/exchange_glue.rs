use turn_transfer::exchange::{
    batch_event, batch_frame, config_event, config_frame, confirm_event, frame_event,
    frame_payload, produce, read_event, readiness_frame,
};
use turn_transfer::frame::{decode, Frame, FrameError};
use turn_transfer::payload::{deserialize_batch, PayloadError, SessionConfig, BATCH_SIZE_LIMIT};
use turn_transfer::reader::ReadStep;
use turn_transfer::session::Event;
use turn_transfer::turn::TurnRole;

#[test]
fn config_frame_bytes() {
    let bytes = config_frame(&SessionConfig { batch_size: 5, iteration_count: 4 });
    assert_eq!(
        bytes,
        Some(vec![0x01, 16, 0, 0, 0, 5, 0, 0, 0, 0, 0, 0, 0, 4, 0, 0, 0, 0, 0, 0, 0])
    );
}

#[test]
fn batch_frame_bytes() {
    assert_eq!(
        batch_frame(&vec![7, 0x100]),
        Some(vec![0x01, 16, 0, 0, 0, 2, 0, 0, 0, 0, 0, 0, 0, 7, 0, 0, 0, 0, 1, 0, 0])
    );
}

#[test]
fn batch_frame_at_the_limit() {
    // 249_997 numbers give a payload of 999_996 bytes; one more reaches the
    // ceiling.
    assert_eq!(BATCH_SIZE_LIMIT, 249_998);
    let fits: Vec<u32> = vec![1; 249_997];
    assert_eq!(batch_frame(&fits).map(|b| b.len()), Some(5 + 999_996));
    let too_many: Vec<u32> = vec![1; 249_998];
    assert_eq!(batch_frame(&too_many), None);
}

#[test]
fn frame_payload_needs_a_payload_under_the_ceiling() {
    assert_eq!(frame_payload(Ok(vec![9, 8])), Some(vec![0x01, 2, 0, 0, 0, 9, 8]));
    assert_eq!(frame_payload(Ok(vec![0; 1_000_000])), None);
    assert_eq!(frame_payload(Err(PayloadError::Encode)), None);
}

#[test]
fn produce_gives_a_batch_and_its_frame() {
    let (numbers, bytes) = produce(5).unwrap();
    assert_eq!(numbers.len(), 5);
    let (frame, used) = decode(&bytes).unwrap();
    assert_eq!(used, bytes.len());
    assert_eq!(used, 5 + 8 + 20);
    match frame {
        Frame::Data(payload) => assert_eq!(deserialize_batch(&payload), Ok(numbers)),
        other => panic!("not a data frame: {:?}", other),
    }
}

#[test]
fn produce_of_an_empty_batch() {
    let (numbers, bytes) = produce(0).unwrap();
    assert_eq!(numbers, Vec::<u32>::new());
    assert_eq!(bytes, vec![0x01, 8, 0, 0, 0, 0, 0, 0, 0, 0, 0, 0, 0]);
}

#[test]
fn produce_refuses_a_batch_that_has_no_frame() {
    assert_eq!(produce(249_998), None);
    assert_eq!(produce(250_000), None);
    assert_eq!(produce(u64::MAX), None);
}

#[test]
fn readiness_frames() {
    assert_eq!(readiness_frame(TurnRole::Producer), vec![0x03]);
    assert_eq!(readiness_frame(TurnRole::Consumer), vec![0x04]);
}

#[test]
fn payload_events() {
    let config = SessionConfig { batch_size: 1, iteration_count: 2 };
    assert_eq!(config_event(Ok(config)), Event::Config(config));
    assert_eq!(config_event(Err(PayloadError::Decode)), Event::Garbled);
    assert_eq!(batch_event(Ok(vec![1, 2])), Event::Batch(vec![1, 2]));
    assert_eq!(batch_event(Err(PayloadError::Decode)), Event::Garbled);
}

#[test]
fn frame_events() {
    assert_eq!(frame_event(Frame::End, false), Event::End);
    assert_eq!(frame_event(Frame::End, true), Event::End);
    assert_eq!(frame_event(Frame::ProducerReady, false), Event::Control);
    assert_eq!(frame_event(Frame::ConsumerReady, true), Event::Control);
    let payload: Vec<u8> = vec![5, 0, 0, 0, 0, 0, 0, 0, 4, 0, 0, 0, 0, 0, 0, 0];
    assert_eq!(
        frame_event(Frame::Data(payload), true),
        Event::Config(SessionConfig { batch_size: 5, iteration_count: 4 })
    );
    let payload: Vec<u8> = vec![2, 0, 0, 0, 0, 0, 0, 0, 9, 0, 0, 0, 8, 0, 0, 0];
    assert_eq!(frame_event(Frame::Data(payload), false), Event::Batch(vec![9, 8]));
    assert_eq!(frame_event(Frame::Data(vec![1, 2, 3]), false), Event::Garbled);
    assert_eq!(frame_event(Frame::Data(vec![1, 2, 3]), true), Event::Garbled);
}

#[test]
fn read_events() {
    assert_eq!(read_event(ReadStep::Continue, false), None);
    assert_eq!(
        read_event(ReadStep::Failed(FrameError::ProtocolViolation(5)), false),
        Some(Event::Rejected(FrameError::ProtocolViolation(5)))
    );
    assert_eq!(read_event(ReadStep::Complete(Frame::End), false), Some(Event::End));
    assert_eq!(read_event(ReadStep::Complete(Frame::Data(vec![0; 8])), false), Some(Event::Batch(Vec::new())));
}

#[test]
fn confirm_events() {
    assert_eq!(confirm_event(0x01), Event::Confirm(0x01));
    assert_eq!(confirm_event(0x00), Event::Confirm(0x00));
    assert_eq!(confirm_event(0x02), Event::Confirm(0x02));
    assert_eq!(confirm_event(0xFF), Event::Confirm(0xFF));
    assert_eq!(confirm_event(0x03), Event::Control);
    assert_eq!(confirm_event(0x04), Event::Control);
}

#[test]
fn every_configuration_has_a_frame() {
    for (batch_size, iteration_count) in [(0u64, 0u64), (1, u64::MAX), (u64::MAX, u64::MAX)] {
        let bytes = config_frame(&SessionConfig { batch_size, iteration_count }).unwrap();
        assert_eq!(bytes.len(), 21);
        assert_eq!(&bytes[..5], &[0x01, 16, 0, 0, 0]);
        assert_eq!(&bytes[5..13], &batch_size.to_le_bytes());
        assert_eq!(&bytes[13..], &iteration_count.to_le_bytes());
    }
}

#[test]
fn produce_succeeds_up_to_the_limit() {
    let (numbers, bytes) = produce(249_997).unwrap();
    assert_eq!(numbers.len(), 249_997);
    assert_eq!(bytes.len(), 5 + 8 + 4 * 249_997);
}

#[test]
fn frame_event_reads_a_payload_with_bytes_behind_the_value() {
    let payload: Vec<u8> = vec![1, 0, 0, 0, 0, 0, 0, 0, 9, 0, 0, 0, 0xAB];
    assert_eq!(frame_event(Frame::Data(payload), false), Event::Batch(vec![9]));
    let payload: Vec<u8> = vec![5, 0, 0, 0, 0, 0, 0, 0, 4, 0, 0, 0, 0, 0, 0, 0, 1, 2, 3];
    assert_eq!(
        frame_event(Frame::Data(payload), true),
        Event::Config(SessionConfig { batch_size: 5, iteration_count: 4 })
    );
}

#[test]
fn produced_batch_is_reported_to_the_consumer() {
    let (numbers, bytes) = produce(17).unwrap();
    let (frame, _) = decode(&bytes).unwrap();
    assert_eq!(frame_event(frame.clone(), false), Event::Batch(numbers));
    assert_eq!(read_event(ReadStep::Complete(frame), false).is_some(), true);
}
