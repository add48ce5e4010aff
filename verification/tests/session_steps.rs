use turn_transfer::frame::FrameError;
use turn_transfer::payload::SessionConfig;
use turn_transfer::session::{
    outcome_on_end, readiness_due, violation_from, Action, Event, Phase, Session, SessionOutcome,
    Stage, Timing, Violation, CONFIRM_BYTE, DEFAULT_POLL_DELAY_MS, DEFAULT_TIMEOUT_MS,
};
use turn_transfer::turn::{IterationState, PeerRole, TurnRole};

fn config(batch_size: u64, iteration_count: u64) -> SessionConfig {
    SessionConfig { batch_size, iteration_count }
}

/// An initiator that has sent its configuration and a first batch at time
/// 1000 and now waits for the confirmation.
fn initiator_awaiting_confirm() -> Session {
    let mut session = Session::initiator(config(5, 4), Timing::default());
    assert_eq!(session.step(0, Event::Connected), Action::SendConfig(config(5, 4)));
    assert_eq!(session.step(0, Event::Sent), Action::Produce { batch_size: 5, announce: true });
    assert_eq!(session.step(1000, Event::Sent), Action::AwaitConfirm(10_000));
    session
}

/// A responder that has received the configuration at time 1000 and now
/// waits for the first batch.
fn responder_polling(iteration_count: u64) -> Session {
    let mut session = Session::responder(Timing::default());
    assert_eq!(session.step(0, Event::Connected), Action::ReceiveConfig);
    assert_eq!(
        session.step(1000, Event::Config(config(5, iteration_count))),
        Action::Poll { announce: true, delay_ms: 0, within_ms: 10_000 }
    );
    session
}

#[test]
fn default_timing() {
    assert_eq!(DEFAULT_TIMEOUT_MS, 10_000);
    assert_eq!(DEFAULT_POLL_DELAY_MS, 100);
    assert_eq!(Timing::default(), Timing { timeout_ms: 10_000, poll_delay_ms: 100 });
    assert_eq!(CONFIRM_BYTE, 0x01);
}

#[test]
fn readiness_is_due_in_even_seconds() {
    assert!(readiness_due(0));
    assert!(readiness_due(999));
    assert!(!readiness_due(1000));
    assert!(!readiness_due(1999));
    assert!(readiness_due(2000));
    assert!(!readiness_due(9999));
    assert!(readiness_due(10_000));
}

#[test]
fn end_frame_completes_only_after_the_last_iteration() {
    assert_eq!(outcome_on_end(4, 4), SessionOutcome::CompletedAllIterations);
    assert_eq!(outcome_on_end(3, 4), SessionOutcome::PeerClosed);
    assert_eq!(outcome_on_end(0, 4), SessionOutcome::PeerClosed);
    assert_eq!(outcome_on_end(0, 0), SessionOutcome::CompletedAllIterations);
}

#[test]
fn refused_frames_map_to_violations() {
    assert_eq!(violation_from(FrameError::ProtocolViolation(5)), Violation::UnknownTag(5));
    assert_eq!(violation_from(FrameError::FrameCorrupt(1_000_000)), Violation::CorruptFrame(1_000_000));
    assert_eq!(violation_from(FrameError::Truncated), Violation::TruncatedFrame);
}

#[test]
fn new_sessions_are_idle() {
    let session = Session::initiator(config(5, 4), Timing::default());
    assert_eq!(session.phase(), Phase::Idle);
    assert_eq!(session.outcome(), None);
    let state = session.state();
    assert_eq!(state.peer, PeerRole::Initiator);
    assert_eq!(state.config, config(5, 4));
    assert_eq!(state.index, 0);
    assert_eq!(state.stage, Stage::Idle);

    let session = Session::responder(Timing::default());
    assert_eq!(session.phase(), Phase::Idle);
    assert_eq!(session.state().peer, PeerRole::Responder);
    assert_eq!(session.state().config, config(0, 0));
    assert!(!session.expects_config());
}

#[test]
fn initiator_sends_the_configuration_first() {
    let mut session = Session::initiator(config(5, 4), Timing::default());
    assert_eq!(session.step(0, Event::Connected), Action::SendConfig(config(5, 4)));
    assert_eq!(session.phase(), Phase::ConfigExchange);
    assert_eq!(session.step(7, Event::Sent), Action::Produce { batch_size: 5, announce: true });
    assert_eq!(session.phase(), Phase::ActingAsProducer);
    assert_eq!(session.state().index, 0);
}

#[test]
fn responder_waits_for_the_configuration() {
    let mut session = Session::responder(Timing::default());
    assert_eq!(session.step(0, Event::Connected), Action::ReceiveConfig);
    assert!(session.expects_config());
    assert_eq!(session.phase(), Phase::ConfigExchange);
    assert_eq!(session.step(50, Event::Quiet), Action::ReceiveConfig);
    assert_eq!(
        session.step(60, Event::Config(config(5, 4))),
        Action::Poll { announce: true, delay_ms: 0, within_ms: 10_000 }
    );
    assert!(!session.expects_config());
    assert_eq!(session.phase(), Phase::ActingAsConsumer);
    assert_eq!(session.state().config, config(5, 4));
    assert_eq!(session.state().since_ms, 60);
}

#[test]
fn responder_refuses_anything_but_the_configuration() {
    for event in [Event::Control, Event::End, Event::Batch(vec![1, 2])] {
        let mut session = Session::responder(Timing::default());
        session.step(0, Event::Connected);
        assert_eq!(session.step(1, event), Action::Terminate { send_end: true });
        assert_eq!(
            session.outcome(),
            Some(SessionOutcome::ProtocolViolation(Violation::ConfigExpected))
        );
    }
    let mut session = Session::responder(Timing::default());
    session.step(0, Event::Connected);
    assert_eq!(session.step(1, Event::Garbled), Action::Terminate { send_end: true });
    assert_eq!(
        session.outcome(),
        Some(SessionOutcome::ProtocolViolation(Violation::MalformedPayload))
    );
}

#[test]
fn responder_whose_peer_leaves_before_the_configuration() {
    let mut session = Session::responder(Timing::default());
    session.step(0, Event::Connected);
    assert_eq!(session.step(1, Event::Disconnected), Action::Terminate { send_end: false });
    assert_eq!(session.outcome(), Some(SessionOutcome::PeerClosed));
}

#[test]
fn session_without_iterations_completes_at_once() {
    let mut session = Session::initiator(config(5, 0), Timing::default());
    session.step(0, Event::Connected);
    assert_eq!(session.step(0, Event::Sent), Action::Terminate { send_end: true });
    assert_eq!(session.outcome(), Some(SessionOutcome::CompletedAllIterations));

    let mut session = Session::responder(Timing::default());
    session.step(0, Event::Connected);
    assert_eq!(session.step(0, Event::Config(config(5, 0))), Action::Terminate { send_end: true });
    assert_eq!(session.outcome(), Some(SessionOutcome::CompletedAllIterations));
}

#[test]
fn producer_advances_on_any_confirmation_byte() {
    for byte in [0x00u8, 0x01, 0x02, 0x7F, 0xFF] {
        let mut session = initiator_awaiting_confirm();
        assert_eq!(
            session.step(1500, Event::Confirm(byte)),
            Action::Poll { announce: true, delay_ms: 0, within_ms: 10_000 }
        );
        assert_eq!(session.state().index, 1);
        assert_eq!(session.phase(), Phase::ActingAsConsumer);
        assert_eq!(session.state().since_ms, 1500);
    }
}

#[test]
fn producer_keeps_waiting_with_the_time_that_is_left() {
    let mut session = initiator_awaiting_confirm();
    assert_eq!(session.step(4000, Event::Quiet), Action::AwaitConfirm(7_000));
    assert_eq!(session.step(10_999, Event::Quiet), Action::AwaitConfirm(1));
    assert_eq!(session.state().index, 0);
    assert_eq!(session.phase(), Phase::ActingAsProducer);
}

#[test]
fn producer_does_not_take_a_readiness_frame_for_the_confirmation() {
    let mut session = initiator_awaiting_confirm();
    assert_eq!(session.step(2000, Event::Control), Action::AwaitConfirm(9_000));
    assert_eq!(session.state().index, 0);
    assert_eq!(session.phase(), Phase::ActingAsProducer);
}

#[test]
fn producer_times_out_without_confirmation() {
    let mut session = initiator_awaiting_confirm();
    assert_eq!(session.step(11_000, Event::Quiet), Action::Terminate { send_end: true });
    assert_eq!(session.outcome(), Some(SessionOutcome::TimedOut(0)));

    // A confirmation that comes after the deadline is late.
    let mut session = initiator_awaiting_confirm();
    assert_eq!(session.step(11_000, Event::Confirm(1)), Action::Terminate { send_end: true });
    assert_eq!(session.outcome(), Some(SessionOutcome::TimedOut(0)));
    assert_eq!(session.state().index, 0);
}

#[test]
fn producer_whose_peer_is_gone_ends_gracefully() {
    let mut session = initiator_awaiting_confirm();
    assert_eq!(session.step(2000, Event::Disconnected), Action::Terminate { send_end: false });
    assert_eq!(session.outcome(), Some(SessionOutcome::PeerClosed));

    let mut session = Session::initiator(config(5, 4), Timing::default());
    session.step(0, Event::Connected);
    session.step(0, Event::Sent);
    assert_eq!(session.step(1, Event::SendFailed), Action::Terminate { send_end: false });
    assert_eq!(session.outcome(), Some(SessionOutcome::PeerClosed));
}

#[test]
fn producer_with_a_batch_that_has_no_frame() {
    let mut session = Session::initiator(config(250_000, 4), Timing::default());
    session.step(0, Event::Connected);
    assert_eq!(session.step(0, Event::Sent), Action::Produce { batch_size: 250_000, announce: true });
    assert_eq!(session.step(1, Event::Unencodable), Action::Terminate { send_end: true });
    assert_eq!(
        session.outcome(),
        Some(SessionOutcome::ProtocolViolation(Violation::Unencodable))
    );
}

#[test]
fn consumer_hands_the_batch_on_and_confirms() {
    let mut session = responder_polling(4);
    assert_eq!(
        session.step(1200, Event::Batch(vec![3, 1, 2, 5, 4])),
        Action::Deliver(vec![3, 1, 2, 5, 4])
    );
    assert_eq!(session.phase(), Phase::ActingAsConsumer);
    assert_eq!(session.state().index, 0);
    assert_eq!(session.step(1300, Event::Sent), Action::Produce { batch_size: 5, announce: true });
    assert_eq!(session.state().index, 1);
    assert_eq!(session.phase(), Phase::ActingAsProducer);
}

#[test]
fn consumer_pauses_after_a_quiet_attempt() {
    let mut session = responder_polling(4);
    // 500 ms in: pause 100, attempt at 600 ms, 9400 ms left for it.
    assert_eq!(
        session.step(1500, Event::Quiet),
        Action::Poll { announce: true, delay_ms: 100, within_ms: 9_400 }
    );
    // 950 ms in: the attempt begins at 1050 ms, in an odd second.
    assert_eq!(
        session.step(1950, Event::Quiet),
        Action::Poll { announce: false, delay_ms: 100, within_ms: 8_950 }
    );
    // 1900 ms in: the attempt begins at 2000 ms, in an even second.
    assert_eq!(
        session.step(2900, Event::Quiet),
        Action::Poll { announce: true, delay_ms: 100, within_ms: 8_000 }
    );
}

#[test]
fn consumer_cuts_the_pause_at_the_deadline() {
    let mut session = responder_polling(4);
    // 9950 ms in, 50 ms are left: the attempt begins at 10 000 ms.
    assert_eq!(
        session.step(10_950, Event::Quiet),
        Action::Poll { announce: true, delay_ms: 50, within_ms: 0 }
    );
    assert_eq!(
        session.step(9_950, Event::Quiet),
        Action::Poll { announce: false, delay_ms: 100, within_ms: 950 }
    );
    assert_eq!(
        session.step(10_999, Event::Quiet),
        Action::Poll { announce: true, delay_ms: 1, within_ms: 0 }
    );
}

#[test]
fn consumer_ignores_readiness_frames() {
    let mut session = responder_polling(4);
    assert_eq!(
        session.step(1500, Event::Control),
        Action::Poll { announce: true, delay_ms: 0, within_ms: 9_500 }
    );
    assert_eq!(
        session.step(2500, Event::Control),
        Action::Poll { announce: false, delay_ms: 0, within_ms: 8_500 }
    );
    assert_eq!(session.state().index, 0);
    assert_eq!(session.outcome(), None);
    assert_eq!(session.state().since_ms, 1000);
}

#[test]
fn consumer_times_out_at_the_deadline() {
    let mut session = responder_polling(4);
    assert_eq!(session.step(10_999, Event::Control).clone(), Action::Poll {
        announce: false,
        delay_ms: 0,
        within_ms: 1
    });
    assert_eq!(session.step(11_000, Event::Quiet), Action::Terminate { send_end: true });
    assert_eq!(session.outcome(), Some(SessionOutcome::TimedOut(0)));
    assert_eq!(session.phase(), Phase::Terminating);
    assert_eq!(session.step(11_001, Event::Sent), Action::Finished(SessionOutcome::TimedOut(0)));
    assert_eq!(session.phase(), Phase::Closed);
}

#[test]
fn consumer_times_out_in_a_later_iteration() {
    let mut session = initiator_awaiting_confirm();
    session.step(1500, Event::Confirm(CONFIRM_BYTE));
    assert_eq!(session.state().index, 1);
    assert_eq!(session.step(5000, Event::Quiet), Action::Poll {
        announce: false,
        delay_ms: 100,
        within_ms: 6_400
    });
    assert_eq!(session.step(11_500, Event::Quiet), Action::Terminate { send_end: true });
    assert_eq!(session.outcome(), Some(SessionOutcome::TimedOut(1)));
}

#[test]
fn data_after_the_deadline_is_late() {
    let mut session = responder_polling(4);
    assert_eq!(session.step(11_000, Event::Batch(vec![1])), Action::Terminate { send_end: true });
    assert_eq!(session.outcome(), Some(SessionOutcome::TimedOut(0)));
    assert_eq!(session.state().index, 0);
}

#[test]
fn nothing_happens_after_a_timeout() {
    let mut session = responder_polling(4);
    session.step(11_000, Event::Quiet);
    for event in [Event::Batch(vec![1]), Event::Sent, Event::Confirm(1), Event::End, Event::Quiet] {
        assert_eq!(session.step(12_000, event), Action::Finished(SessionOutcome::TimedOut(0)));
        assert_eq!(session.state().index, 0);
        assert_eq!(session.phase(), Phase::Closed);
    }
}

#[test]
fn clock_that_runs_backwards_counts_as_no_time() {
    let mut session = responder_polling(4);
    assert_eq!(
        session.step(10, Event::Quiet),
        Action::Poll { announce: true, delay_ms: 100, within_ms: 9_900 }
    );
}

#[test]
fn session_with_no_time_times_out_on_the_first_report() {
    let mut session = Session::responder(Timing { timeout_ms: 0, poll_delay_ms: 100 });
    session.step(0, Event::Connected);
    assert_eq!(
        session.step(5, Event::Config(config(1, 1))),
        Action::Poll { announce: true, delay_ms: 0, within_ms: 0 }
    );
    assert_eq!(session.step(5, Event::Batch(vec![1])), Action::Terminate { send_end: true });
    assert_eq!(session.outcome(), Some(SessionOutcome::TimedOut(0)));
}

#[test]
fn unknown_tag_ends_the_session_as_a_violation() {
    let mut session = responder_polling(4);
    assert_eq!(
        session.step(1100, Event::Rejected(FrameError::ProtocolViolation(0x05))),
        Action::Terminate { send_end: true }
    );
    assert_eq!(
        session.outcome(),
        Some(SessionOutcome::ProtocolViolation(Violation::UnknownTag(0x05)))
    );
    assert_eq!(session.phase(), Phase::Terminating);
    assert_eq!(
        session.step(1101, Event::Sent),
        Action::Finished(SessionOutcome::ProtocolViolation(Violation::UnknownTag(0x05)))
    );
}

#[test]
fn corrupt_and_truncated_frames_end_the_session() {
    let mut session = responder_polling(4);
    session.step(1100, Event::Rejected(FrameError::FrameCorrupt(1_000_000)));
    assert_eq!(
        session.outcome(),
        Some(SessionOutcome::ProtocolViolation(Violation::CorruptFrame(1_000_000)))
    );

    let mut session = responder_polling(4);
    session.step(1100, Event::Rejected(FrameError::Truncated));
    assert_eq!(
        session.outcome(),
        Some(SessionOutcome::ProtocolViolation(Violation::TruncatedFrame))
    );

    let mut session = responder_polling(4);
    session.step(1100, Event::Garbled);
    assert_eq!(
        session.outcome(),
        Some(SessionOutcome::ProtocolViolation(Violation::MalformedPayload))
    );
}

#[test]
fn end_frame_while_consuming_is_a_graceful_stop() {
    let mut session = responder_polling(4);
    assert_eq!(session.step(1100, Event::End), Action::Terminate { send_end: false });
    assert_eq!(session.outcome(), Some(SessionOutcome::PeerClosed));
    assert_eq!(session.step(1101, Event::Quiet), Action::Finished(SessionOutcome::PeerClosed));
}

#[test]
fn consumer_whose_confirmation_cannot_be_sent() {
    let mut session = responder_polling(4);
    session.step(1100, Event::Batch(vec![1, 2, 3, 4, 5]));
    assert_eq!(session.step(1200, Event::SendFailed), Action::Terminate { send_end: false });
    assert_eq!(session.outcome(), Some(SessionOutcome::PeerClosed));
    assert_eq!(session.state().index, 0);
}

#[test]
fn report_that_does_not_fit_ends_the_session() {
    let mut session = Session::initiator(config(5, 4), Timing::default());
    assert_eq!(session.step(0, Event::Sent), Action::Terminate { send_end: true });
    assert_eq!(
        session.outcome(),
        Some(SessionOutcome::ProtocolViolation(Violation::OutOfSequence))
    );

    let mut session = responder_polling(4);
    assert_eq!(session.step(1100, Event::Confirm(1)), Action::Terminate { send_end: true });
    assert_eq!(
        session.outcome(),
        Some(SessionOutcome::ProtocolViolation(Violation::OutOfSequence))
    );

    let mut session = initiator_awaiting_confirm();
    assert_eq!(session.step(1100, Event::Batch(vec![1])), Action::Terminate { send_end: true });
    assert_eq!(
        session.outcome(),
        Some(SessionOutcome::ProtocolViolation(Violation::OutOfSequence))
    );
}

#[test]
fn last_iteration_completes_the_session() {
    let mut session = responder_polling(1);
    session.step(1100, Event::Batch(vec![1, 2, 3, 4, 5]));
    assert_eq!(session.step(1200, Event::Sent), Action::Terminate { send_end: true });
    assert_eq!(session.outcome(), Some(SessionOutcome::CompletedAllIterations));
    assert_eq!(session.state().index, 1);
    assert_eq!(
        session.step(1300, Event::Sent),
        Action::Finished(SessionOutcome::CompletedAllIterations)
    );
    assert_eq!(session.phase(), Phase::Closed);
}

#[test]
fn iteration_is_known_only_inside_one() {
    let mut session = Session::initiator(config(5, 2), Timing::default());
    assert_eq!(session.iteration(), None);
    session.step(0, Event::Connected);
    assert_eq!(session.iteration(), None);
    session.step(0, Event::Sent);
    assert_eq!(session.iteration(), Some(IterationState { index: 0 }));
    assert_eq!(session.iteration().unwrap().role(PeerRole::Initiator), TurnRole::Producer);
    session.step(1, Event::Sent);
    session.step(2, Event::Confirm(CONFIRM_BYTE));
    assert_eq!(session.iteration(), Some(IterationState { index: 1 }));
    assert_eq!(session.iteration().unwrap().role(PeerRole::Initiator), TurnRole::Consumer);
    session.step(3, Event::Batch(vec![1, 2, 3, 4, 5]));
    session.step(4, Event::Sent);
    assert_eq!(session.iteration(), None);
    assert_eq!(session.outcome(), Some(SessionOutcome::CompletedAllIterations));
}

#[test]
fn violations_in_words() {
    assert_eq!(Violation::UnknownTag(5).message(), "Protocol violation");
    assert_eq!(Violation::CorruptFrame(1_000_000).message(), "Suspicious data length");
    assert_eq!(Violation::TruncatedFrame.message(), "Truncated frame");
    assert_eq!(Violation::ConfigExpected.message(), "Failed to receive config");
    assert_eq!(Violation::MalformedPayload.message(), "Malformed payload");
    assert_eq!(Violation::Unencodable.message(), "Payload too large for a frame");
    assert_eq!(Violation::OutOfSequence.message(), "Unexpected report");
}
