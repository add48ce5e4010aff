//! What holds of every session, proved from `SessionState::next`.

use crate::payload::SessionConfig;
use crate::session::{
    lemma_next_keeps_wf, ActionView, EventView, Phase, SessionOutcome, SessionState, Stage, Timing,
    CONFIRM_BYTE,
};
use crate::turn::{lemma_turn_exclusive, turn_of, PeerRole, TurnRole};
use vstd::prelude::*;

verus! {

/// Whether a state stands inside an iteration.
pub open spec fn iterating(state: SessionState) -> bool {
    state.phase() == Phase::ActingAsProducer || state.phase() == Phase::ActingAsConsumer
}

/// Inside an iteration a session acts as the role that the parity of the
/// index gives its peer, and as nothing else.
pub proof fn lemma_phase_follows_turn(state: SessionState)
    requires
        state.wf(),
        iterating(state),
    ensures
        state.index < state.config.iteration_count,
        state.phase() == Phase::ActingAsProducer <==> turn_of(state.peer, state.index)
            == TurnRole::Producer,
        state.phase() == Phase::ActingAsConsumer <==> turn_of(state.peer, state.index)
            == TurnRole::Consumer,
        state.phase() == Phase::ActingAsProducer <==> (state.index % 2 == 0) == (state.peer
            == PeerRole::Initiator),
{
}

/// When the two peers of a connection stand in the same iteration, exactly
/// one of them acts as producer and the other as consumer.
pub proof fn lemma_one_producer_one_consumer(one: SessionState, other: SessionState)
    requires
        one.wf(),
        other.wf(),
        one.peer != other.peer,
        one.index == other.index,
        iterating(one),
        iterating(other),
    ensures
        (one.phase() == Phase::ActingAsProducer) != (other.phase() == Phase::ActingAsProducer),
        (one.phase() == Phase::ActingAsConsumer) != (other.phase() == Phase::ActingAsConsumer),
{
    lemma_turn_exclusive(one.index);
    lemma_phase_follows_turn(one);
    lemma_phase_follows_turn(other);
}

/// A consumer whose deadline has passed times out in its current iteration,
/// whatever is reported to it, and so does a producer that waits for the
/// confirmation. The iteration's index stays.
pub proof fn lemma_deadline_enforced(state: SessionState, now_ms: u64, event: EventView)
    requires
        state.wf(),
        state.stage == Stage::Polling || state.stage == Stage::AwaitingConfirm,
        state.overdue(now_ms),
    ensures
        state.next(now_ms, event).0.outcome == Some(SessionOutcome::TimedOut(state.index)),
        state.next(now_ms, event).0.stage == Stage::Terminating,
        state.next(now_ms, event).0.index == state.index,
        state.next(now_ms, event).1 == (ActionView::Terminate { send_end: true }),
{
}

/// Before the deadline a consumer does not time out.
pub proof fn lemma_no_early_timeout(state: SessionState, now_ms: u64, event: EventView)
    requires
        state.wf(),
        !state.overdue(now_ms),
    ensures
        !(state.next(now_ms, event).0.outcome matches Some(SessionOutcome::TimedOut(_))) || (
        state.outcome matches Some(SessionOutcome::TimedOut(_))),
{
}

/// A batch that arrives before the deadline is handed on, and nothing else
/// happens to the session.
pub proof fn lemma_batch_in_time_is_delivered(state: SessionState, now_ms: u64, numbers: Seq<u32>)
    requires
        state.wf(),
        state.stage == Stage::Polling,
        !state.overdue(now_ms),
    ensures
        state.next(now_ms, EventView::Batch(numbers)).1 == ActionView::Deliver(numbers),
        state.next(now_ms, EventView::Batch(numbers)).0 == (SessionState {
            stage: Stage::Delivering,
            ..state
        }),
{
}

/// Readiness frames neither end a wait nor confirm anything: a consumer that
/// receives one before the deadline goes on waiting for data, and a producer
/// for the confirmation, in the same iteration and against the same
/// deadline.
pub proof fn lemma_control_frames_are_ignored(state: SessionState, now_ms: u64)
    requires
        state.wf(),
        state.stage == Stage::Polling || state.stage == Stage::AwaitingConfirm,
        !state.overdue(now_ms),
    ensures
        state.next(now_ms, EventView::Control).0 == state,
        state.stage == Stage::Polling ==> state.next(now_ms, EventView::Control).1
            == state.polling(now_ms, 0),
        state.stage == Stage::AwaitingConfirm ==> state.next(now_ms, EventView::Control).1
            == state.awaiting(now_ms),
{
}

/// A producer takes any byte for the confirmation, once its data frame is
/// sent and while the deadline has not passed: the iteration is over and the
/// next one begins.
pub proof fn lemma_any_byte_confirms(state: SessionState, now_ms: u64, byte: u8)
    requires
        state.wf(),
        state.stage == Stage::AwaitingConfirm,
        !state.overdue(now_ms),
    ensures
        state.next(now_ms, EventView::Confirm(byte)) == state.advanced(now_ms),
        state.next(now_ms, EventView::Confirm(byte)).0.index == state.index + 1,
        state.next(now_ms, EventView::Confirm(byte)).0.outcome is Some ==> state.next(
            now_ms,
            EventView::Confirm(byte),
        ).0.outcome == Some(SessionOutcome::CompletedAllIterations),
{
}

/// A pause and the attempt after it never reach past the deadline.
pub proof fn lemma_poll_ends_at_deadline(state: SessionState, now_ms: u64, delay_ms: u64)
    requires
        !state.overdue(now_ms),
    ensures
        state.polling(now_ms, delay_ms) matches ActionView::Poll { delay_ms: pause, within_ms, .. }
            && pause <= delay_ms && state.elapsed(now_ms) + pause + within_ms
            == state.timing.timeout_ms,
{
}

/// Once a session has an outcome it keeps it: no event changes the outcome or
/// the count of iterations, and all that is left is to close.
pub proof fn lemma_outcome_is_final(state: SessionState, now_ms: u64, event: EventView)
    requires
        state.wf(),
        state.outcome is Some,
    ensures
        state.next(now_ms, event).0.outcome == state.outcome,
        state.next(now_ms, event).0.index == state.index,
        state.next(now_ms, event).0.stage == Stage::Closed,
        state.next(now_ms, event).1 == ActionView::Finished(state.outcome->0),
{
}

/// A step completes at most one iteration, and only the confirmation does:
/// the byte that a producer receives, or the one that a consumer has sent.
pub proof fn lemma_iterations_advance_on_confirmation(
    state: SessionState,
    now_ms: u64,
    event: EventView,
)
    requires
        state.wf(),
    ensures
        state.next(now_ms, event).0.index == state.index || state.next(now_ms, event).0.index
            == state.index + 1,
        state.next(now_ms, event).0.index != state.index ==> (state.stage
            == Stage::AwaitingConfirm && event is Confirm && !state.overdue(now_ms)) || (
        state.stage == Stage::Delivering && event is Sent),
        state.next(now_ms, event).0.config == state.config || state.stage
            == Stage::AwaitingConfig,
        state.next(now_ms, event).0.peer == state.peer,
        state.next(now_ms, event).0.timing == state.timing,
{
}

/// A session reports `CompletedAllIterations` only when every iteration has
/// run, and while it stands inside an iteration one is still to run.
pub proof fn lemma_completed_means_all_iterations(
    state: SessionState,
    now_ms: u64,
    event: EventView,
)
    requires
        state.wf(),
    ensures
        state.next(now_ms, event).0.outcome == Some(SessionOutcome::CompletedAllIterations)
            ==> state.next(now_ms, event).0.index == state.next(
            now_ms,
            event,
        ).0.config.iteration_count,
        iterating(state.next(now_ms, event).0) ==> state.next(now_ms, event).0.index
            < state.next(now_ms, event).0.config.iteration_count,
{
    lemma_next_keeps_wf(state, now_ms, event);
}

/// A frame that the reader refuses ends the session as a violation: where a
/// frame is awaited, and before the deadline, the refusal becomes the
/// outcome and the end frame is sent.
pub proof fn lemma_refused_frame_ends_session(
    state: SessionState,
    now_ms: u64,
    e: crate::frame::FrameError,
)
    requires
        state.wf(),
        state.stage == Stage::AwaitingConfig || (state.stage == Stage::Polling && !state.overdue(
            now_ms,
        )),
    ensures
        state.next(now_ms, EventView::Rejected(e)).0.outcome == Some(
            SessionOutcome::ProtocolViolation(crate::session::violation_of(e)),
        ),
        state.next(now_ms, EventView::Rejected(e)).0.stage == Stage::Terminating,
        state.next(now_ms, EventView::Rejected(e)).1 == (ActionView::Terminate { send_end: true }),
{
}

/// Whether `event` tells a session in `stage` that its peer is gone: the end
/// frame or the end of the stream where a frame or a byte was awaited, or a
/// write that failed.
pub open spec fn peer_left(stage: Stage, event: EventView) -> bool {
    match stage {
        Stage::Polling => event is End || event is Disconnected,
        Stage::AwaitingConfirm => event is Disconnected,
        Stage::Producing | Stage::Delivering => event is SendFailed,
        _ => false,
    }
}

/// A peer that leaves in the middle of a session ends it gracefully: inside
/// an iteration, and before the deadline, the outcome is `PeerClosed`, never
/// a violation or a timeout, and no end frame is sent after the peer.
pub proof fn lemma_early_stop_is_graceful(state: SessionState, now_ms: u64, event: EventView)
    requires
        state.wf(),
        iterating(state),
        peer_left(state.stage, event),
        !state.overdue(now_ms) || state.stage == Stage::Producing || state.stage
            == Stage::Delivering,
    ensures
        state.next(now_ms, event).0.outcome == Some(SessionOutcome::PeerClosed),
        state.next(now_ms, event).0.index == state.index,
        state.next(now_ms, event).1 == (ActionView::Terminate { send_end: false }),
{
}

/// The first thing a responder accepts is the configuration: whatever else
/// arrives as a frame ends the session as a violation.
pub proof fn lemma_config_comes_first(state: SessionState, now_ms: u64, event: EventView)
    requires
        state.wf(),
        state.stage == Stage::AwaitingConfig,
        event is Control || event is End || event is Batch || event is Garbled || event
            is Rejected,
    ensures
        state.next(now_ms, event).0.outcome matches Some(SessionOutcome::ProtocolViolation(_)),
        state.next(now_ms, event).0.index == 0,
{
}

/// The state of a session after a run of reports, each with its time.
pub open spec fn run(state: SessionState, reports: Seq<(u64, EventView)>) -> SessionState
    decreases reports.len(),
{
    if reports.len() == 0 {
        state
    } else {
        run(state, reports.drop_last()).next(reports.last().0, reports.last().1).0
    }
}

/// Whatever is reported, in whatever order, a session stays in a state that
/// sessions reach, never loses an iteration, and never changes an outcome it
/// has.
pub proof fn lemma_run(state: SessionState, reports: Seq<(u64, EventView)>)
    requires
        state.wf(),
    ensures
        run(state, reports).wf(),
        run(state, reports).index >= state.index,
        state.outcome is Some ==> run(state, reports).outcome == state.outcome && run(
            state,
            reports,
        ).index == state.index,
    decreases reports.len(),
{
    if reports.len() > 0 {
        let before: SessionState = run(state, reports.drop_last());
        lemma_run(state, reports.drop_last());
        lemma_next_keeps_wf(before, reports.last().0, reports.last().1);
        lemma_iterations_advance_on_confirmation(before, reports.last().0, reports.last().1);
        if before.outcome is Some {
            lemma_outcome_is_final(before, reports.last().0, reports.last().1);
        }
    }
}

/// After a consumer's deadline has passed, no run of reports brings another
/// iteration: the session ends timed out in the iteration in which it
/// waited.
pub proof fn lemma_timed_out_for_good(
    state: SessionState,
    now_ms: u64,
    event: EventView,
    later: Seq<(u64, EventView)>,
)
    requires
        state.wf(),
        state.stage == Stage::Polling,
        state.overdue(now_ms),
    ensures
        run(state.next(now_ms, event).0, later).outcome == Some(
            SessionOutcome::TimedOut(state.index),
        ),
        run(state.next(now_ms, event).0, later).index == state.index,
{
    lemma_deadline_enforced(state, now_ms, event);
    lemma_next_keeps_wf(state, now_ms, event);
    lemma_run(state.next(now_ms, event).0, later);
}

/// A consumer that waits in vain times out. Let nothing but silence and
/// readiness frames be reported to a consumer, at whatever times, and let a
/// report follow when the deadline has passed: the session ends timed out in
/// the iteration in which it waited.
pub proof fn lemma_waiting_in_vain(
    state: SessionState,
    reports: Seq<(u64, EventView)>,
    now_ms: u64,
    event: EventView,
)
    requires
        state.wf(),
        state.stage == Stage::Polling,
        forall|i: int| 0 <= i < reports.len() ==> (#[trigger] reports[i]).1 is Quiet || reports[i].1
            is Control,
        state.overdue(now_ms),
    ensures
        run(state, reports.push((now_ms, event))).outcome == Some(
            SessionOutcome::TimedOut(state.index),
        ),
        run(state, reports.push((now_ms, event))).index == state.index,
{
    lemma_still_waiting(state, reports);
    let before: SessionState = run(state, reports);
    let all: Seq<(u64, EventView)> = reports.push((now_ms, event));
    assert(all.drop_last() =~= reports);
    assert(all.last() == (now_ms, event));
    if before == state {
        lemma_deadline_enforced(state, now_ms, event);
    } else {
        lemma_run(state, reports);
        lemma_outcome_is_final(before, now_ms, event);
    }
}

/// After silence and readiness frames a consumer waits as before, against
/// the same deadline, or has timed out.
proof fn lemma_still_waiting(state: SessionState, reports: Seq<(u64, EventView)>)
    requires
        state.wf(),
        state.stage == Stage::Polling,
        forall|i: int| 0 <= i < reports.len() ==> (#[trigger] reports[i]).1 is Quiet || reports[i].1
            is Control,
    ensures
        run(state, reports) == state || (run(state, reports).outcome == Some(
            SessionOutcome::TimedOut(state.index),
        ) && run(state, reports).index == state.index),
    decreases reports.len(),
{
    if reports.len() > 0 {
        let earlier: Seq<(u64, EventView)> = reports.drop_last();
        lemma_still_waiting(state, earlier);
        let before: SessionState = run(state, earlier);
        if before != state {
            lemma_run(state, earlier);
            lemma_outcome_is_final(before, reports.last().0, reports.last().1);
        }
    }
}

/// What a driver reports to a session when nothing goes wrong: every write
/// succeeds, the peer answers with what the session waits for, and `config`
/// is the configuration that the initiator chose.
pub open spec fn undisturbed_event(state: SessionState, config: SessionConfig) -> EventView {
    match state.stage {
        Stage::Idle => EventView::Connected,
        Stage::AwaitingConfig => EventView::Config(config),
        Stage::AwaitingConfirm => EventView::Confirm(CONFIRM_BYTE),
        Stage::Polling => EventView::Batch(Seq::new(config.batch_size as nat, |i: int| 0u32)),
        _ => EventView::Sent,
    }
}

/// The state after `steps` undisturbed reports, each made without delay.
pub open spec fn undisturbed(state: SessionState, config: SessionConfig, steps: nat) -> SessionState
    decreases steps,
{
    if steps == 0 {
        state
    } else {
        undisturbed(
            state.next(state.since_ms, undisturbed_event(state, config)).0,
            config,
            (steps - 1) as nat,
        )
    }
}

/// A session that nothing disturbs runs every iteration and completes. From
/// its creation it takes two reports to exchange the configuration, two for
/// each iteration and one to close, and it ends closed, with every iteration
/// run and `CompletedAllIterations` as its outcome. This holds of both
/// peers, for every configuration, whenever the deadline leaves any time at
/// all.
pub proof fn lemma_undisturbed_session_completes(
    peer: PeerRole,
    config: SessionConfig,
    timing: Timing,
)
    requires
        timing.timeout_ms > 0,
    ensures
        ({
            let start: SessionState = match peer {
                PeerRole::Initiator => SessionState::idle(peer, config, timing),
                PeerRole::Responder => SessionState::idle(
                    peer,
                    SessionConfig { batch_size: 0, iteration_count: 0 },
                    timing,
                ),
            };
            let end: SessionState = undisturbed(
                start,
                config,
                (2 * config.iteration_count + 3) as nat,
            );
            &&& end.stage == Stage::Closed
            &&& end.outcome == Some(SessionOutcome::CompletedAllIterations)
            &&& end.index == config.iteration_count
            &&& end.config == config
        }),
{
    let start: SessionState = match peer {
        PeerRole::Initiator => SessionState::idle(peer, config, timing),
        PeerRole::Responder => SessionState::idle(
            peer,
            SessionConfig { batch_size: 0, iteration_count: 0 },
            timing,
        ),
    };
    let n: nat = config.iteration_count as nat;
    let connected: SessionState = start.next(start.since_ms, undisturbed_event(start, config)).0;
    let agreed: SessionState = connected.next(
        connected.since_ms,
        undisturbed_event(connected, config),
    ).0;
    lemma_next_keeps_wf(start, start.since_ms, undisturbed_event(start, config));
    lemma_next_keeps_wf(connected, connected.since_ms, undisturbed_event(connected, config));
    assert(undisturbed(start, config, 2 * n + 3) == undisturbed(
        agreed,
        config,
        (2 * n + 1) as nat,
    )) by {
        reveal_with_fuel(undisturbed, 3);
    }
    lemma_undisturbed_iterations(agreed, config);
    lemma_undisturbed_split(agreed, config, 2 * n, 1);
    let done: SessionState = undisturbed(agreed, config, 2 * n);
    assert(undisturbed(done, config, 1) == done.next(
        done.since_ms,
        undisturbed_event(done, config),
    ).0) by {
        reveal_with_fuel(undisturbed, 2);
    }
}

/// Undisturbed reports can be counted in two parts.
proof fn lemma_undisturbed_split(state: SessionState, config: SessionConfig, a: nat, b: nat)
    ensures
        undisturbed(state, config, a + b) == undisturbed(undisturbed(state, config, a), config, b),
    decreases a,
{
    if a > 0 {
        lemma_undisturbed_split(
            state.next(state.since_ms, undisturbed_event(state, config)).0,
            config,
            (a - 1) as nat,
            b,
        );
    }
}

/// From the start of an iteration, or from the end of the last one, an
/// undisturbed session needs two reports for each iteration that is left,
/// and stands completed after them.
proof fn lemma_undisturbed_iterations(state: SessionState, config: SessionConfig)
    requires
        state.wf(),
        state.config == config,
        state.timing.timeout_ms > 0,
        state.stage == Stage::Producing || (state.stage == Stage::Polling) || (state.stage
            == Stage::Terminating && state.outcome == Some(
            SessionOutcome::CompletedAllIterations,
        )),
    ensures
        ({
            let end: SessionState = undisturbed(
                state,
                config,
                (2 * (config.iteration_count - state.index)) as nat,
            );
            &&& end.wf()
            &&& end.stage == Stage::Terminating
            &&& end.outcome == Some(SessionOutcome::CompletedAllIterations)
            &&& end.index == config.iteration_count
            &&& end.config == config
        }),
    decreases config.iteration_count - state.index,
{
    if state.stage != Stage::Terminating {
        let first: EventView = undisturbed_event(state, config);
        let half: SessionState = state.next(state.since_ms, first).0;
        let second: EventView = undisturbed_event(half, config);
        let full: SessionState = half.next(half.since_ms, second).0;
        lemma_next_keeps_wf(state, state.since_ms, first);
        lemma_next_keeps_wf(half, half.since_ms, second);
        assert(full.index == state.index + 1);
        assert(undisturbed(state, config, (2 * (config.iteration_count - state.index)) as nat)
            == undisturbed(full, config, (2 * (config.iteration_count - full.index)) as nat)) by {
            reveal_with_fuel(undisturbed, 3);
        }
        lemma_undisturbed_iterations(full, config);
    }
}

} // verus!
