//! The session state machine.
//!
//! A session decides; it does not read, write, sleep or look at the clock.
//! The driver performs each [`Action`] and reports what happened as an
//! [`Event`], together with the current time in milliseconds on a clock of
//! its own choosing. `SessionState::next` is the whole protocol as one
//! function from state, time and event to the next state and action.

use crate::frame::FrameError;
use crate::payload::SessionConfig;
use crate::turn::{role_at, turn_of, IterationState, PeerRole, TurnRole};
use vstd::prelude::*;

verus! {

/// How long a consumer waits for data, and a producer for the confirmation,
/// unless the session is told otherwise.
pub const DEFAULT_TIMEOUT_MS: u64 = 10_000;

/// The pause between two attempts to read a frame, unless the session is
/// told otherwise.
pub const DEFAULT_POLL_DELAY_MS: u64 = 100;

/// The byte a consumer sends to confirm a batch. A producer accepts any byte.
pub const CONFIRM_BYTE: u8 = 0x01;

/// The time limits of a session.
#[derive(Debug, Clone, Copy, PartialEq, Eq, Structural)]
pub struct Timing {
    /// The deadline, counted from the moment a wait begins.
    pub timeout_ms: u64,
    /// The pause after an attempt that brought nothing.
    pub poll_delay_ms: u64,
}

impl Default for Timing {
    /// Ten seconds to wait, a tenth of a second between attempts.
    fn default() -> (timing: Timing)
        ensures
            timing == (Timing {
                timeout_ms: DEFAULT_TIMEOUT_MS,
                poll_delay_ms: DEFAULT_POLL_DELAY_MS,
            }),
    {
        Timing { timeout_ms: DEFAULT_TIMEOUT_MS, poll_delay_ms: DEFAULT_POLL_DELAY_MS }
    }
}

/// What a peer did wrong, or what went wrong with a frame.
#[derive(Debug, Clone, Copy, PartialEq, Eq, Structural)]
pub enum Violation {
    /// A frame opened with this byte, which is no tag.
    UnknownTag(u8),
    /// A data frame claimed this length, at or above the ceiling.
    CorruptFrame(u32),
    /// The stream stopped inside a frame.
    TruncatedFrame,
    /// Something other than the configuration came first.
    ConfigExpected,
    /// A data frame's payload did not decode.
    MalformedPayload,
    /// A payload of this side has no frame: it reaches the ceiling, or the
    /// encoder refused it.
    Unencodable,
    /// The driver reported something that the pending action cannot bring.
    OutOfSequence,
}

impl Violation {
    /// The violation in words, for a log.
    pub open spec fn text(self) -> Seq<char> {
        match self {
            Violation::UnknownTag(_) => "Protocol violation"@,
            Violation::CorruptFrame(_) => "Suspicious data length"@,
            Violation::TruncatedFrame => "Truncated frame"@,
            Violation::ConfigExpected => "Failed to receive config"@,
            Violation::MalformedPayload => "Malformed payload"@,
            Violation::Unencodable => "Payload too large for a frame"@,
            Violation::OutOfSequence => "Unexpected report"@,
        }
    }

    /// The violation in words, for a log.
    pub fn message(&self) -> (words: &'static str)
        ensures
            words@ == self.text(),
    {
        match self {
            Violation::UnknownTag(_) => "Protocol violation",
            Violation::CorruptFrame(_) => "Suspicious data length",
            Violation::TruncatedFrame => "Truncated frame",
            Violation::ConfigExpected => "Failed to receive config",
            Violation::MalformedPayload => "Malformed payload",
            Violation::Unencodable => "Payload too large for a frame",
            Violation::OutOfSequence => "Unexpected report",
        }
    }
}

/// How a session ended.
#[derive(Debug, Clone, Copy, PartialEq, Eq, Structural)]
pub enum SessionOutcome {
    /// Every iteration ran.
    CompletedAllIterations,
    /// The deadline passed in the iteration with this index.
    TimedOut(u64),
    /// The session was aborted.
    ProtocolViolation(Violation),
    /// The peer ended the session or the connection, before every iteration
    /// had run. This is a graceful end, not an error.
    PeerClosed,
}

/// Where a session stands.
#[derive(Debug, Clone, Copy, PartialEq, Eq, Structural)]
pub enum Stage {
    /// Created; the transport is not yet there.
    Idle,
    /// Initiator: the configuration is on its way out.
    SendingConfig,
    /// Responder: waiting for the configuration.
    AwaitingConfig,
    /// Producer: the batch is being generated and sent.
    Producing,
    /// Producer: waiting for the confirmation byte.
    AwaitingConfirm,
    /// Consumer: waiting for the batch.
    Polling,
    /// Consumer: the batch is with the collaborator and the confirmation is
    /// on its way out.
    Delivering,
    /// The outcome is fixed; the end frame and the close are pending.
    Terminating,
    /// Over.
    Closed,
}

/// The stages, grouped by what the session is doing.
#[derive(Debug, Clone, Copy, PartialEq, Eq, Structural)]
pub enum Phase {
    Idle,
    ConfigExchange,
    ActingAsProducer,
    ActingAsConsumer,
    Terminating,
    Closed,
}

/// What the driver reports.
#[derive(Debug, Clone, PartialEq, Eq)]
pub enum Event {
    /// The transport is established.
    Connected,
    /// What the last action handed out is written and flushed.
    Sent,
    /// A write or a flush failed.
    SendFailed,
    /// The payload to send has no frame.
    Unencodable,
    /// A data frame arrived and its payload is this configuration.
    Config(SessionConfig),
    /// A data frame arrived and its payload is this batch.
    Batch(Vec<u32>),
    /// A data frame arrived and its payload did not decode.
    Garbled,
    /// A readiness frame arrived.
    Control,
    /// The end frame arrived.
    End,
    /// The bytes that arrived form no frame.
    Rejected(FrameError),
    /// One byte arrived while the confirmation was awaited.
    Confirm(u8),
    /// Nothing arrived during the attempt.
    Quiet,
    /// The stream ended or failed between two frames.
    Disconnected,
}

/// An event as a mathematical value.
pub enum EventView {
    Connected,
    Sent,
    SendFailed,
    Unencodable,
    Config(SessionConfig),
    Batch(Seq<u32>),
    Garbled,
    Control,
    End,
    Rejected(FrameError),
    Confirm(u8),
    Quiet,
    Disconnected,
}

impl View for Event {
    type V = EventView;

    open spec fn view(&self) -> EventView {
        match self {
            Event::Connected => EventView::Connected,
            Event::Sent => EventView::Sent,
            Event::SendFailed => EventView::SendFailed,
            Event::Unencodable => EventView::Unencodable,
            Event::Config(config) => EventView::Config(*config),
            Event::Batch(numbers) => EventView::Batch(numbers@),
            Event::Garbled => EventView::Garbled,
            Event::Control => EventView::Control,
            Event::End => EventView::End,
            Event::Rejected(e) => EventView::Rejected(*e),
            Event::Confirm(byte) => EventView::Confirm(*byte),
            Event::Quiet => EventView::Quiet,
            Event::Disconnected => EventView::Disconnected,
        }
    }
}

/// What the driver is to do next.
#[derive(Debug, Clone, PartialEq, Eq)]
pub enum Action {
    /// Put this configuration into a data frame and send it. Answer with
    /// `Sent`, `SendFailed` or `Unencodable`.
    SendConfig(SessionConfig),
    /// Read exactly one frame, without a deadline. Answer with the frame's
    /// event, `Rejected` or `Disconnected`.
    ReceiveConfig,
    /// Send the producer's readiness frame if `announce` is set, have a batch
    /// of `batch_size` numbers generated, put it into a data frame and send
    /// it. Answer with `Sent`, `SendFailed` or `Unencodable`.
    Produce { batch_size: u64, announce: bool },
    /// Read one byte, waiting no longer than this many milliseconds. Answer
    /// with `Confirm`, or with `Control` if the byte is a readiness frame,
    /// with `Quiet` or with `Disconnected`.
    AwaitConfirm(u64),
    /// Pause for `delay_ms`, send the consumer's readiness frame if
    /// `announce` is set, and attempt to read one frame for at most
    /// `within_ms`, starting at a tag whatever an unfinished read left
    /// behind. Answer with the frame's event, `Rejected`, `Quiet` or
    /// `Disconnected`.
    Poll { announce: bool, delay_ms: u64, within_ms: u64 },
    /// Hand this batch to the consumer-side collaborator and send the
    /// confirmation byte. Answer with `Sent` or `SendFailed`.
    Deliver(Vec<u32>),
    /// Send the end frame if `send_end` is set, and close the connection.
    /// Answer with any event.
    Terminate { send_end: bool },
    /// Nothing is left to do; this is how the session ended.
    Finished(SessionOutcome),
}

/// An action as a mathematical value.
pub enum ActionView {
    SendConfig(SessionConfig),
    ReceiveConfig,
    Produce { batch_size: u64, announce: bool },
    AwaitConfirm(u64),
    Poll { announce: bool, delay_ms: u64, within_ms: u64 },
    Deliver(Seq<u32>),
    Terminate { send_end: bool },
    Finished(SessionOutcome),
}

impl View for Action {
    type V = ActionView;

    open spec fn view(&self) -> ActionView {
        match self {
            Action::SendConfig(config) => ActionView::SendConfig(*config),
            Action::ReceiveConfig => ActionView::ReceiveConfig,
            Action::Produce { batch_size, announce } => ActionView::Produce {
                batch_size: *batch_size,
                announce: *announce,
            },
            Action::AwaitConfirm(ms) => ActionView::AwaitConfirm(*ms),
            Action::Poll { announce, delay_ms, within_ms } => ActionView::Poll {
                announce: *announce,
                delay_ms: *delay_ms,
                within_ms: *within_ms,
            },
            Action::Deliver(numbers) => ActionView::Deliver(numbers@),
            Action::Terminate { send_end } => ActionView::Terminate { send_end: *send_end },
            Action::Finished(outcome) => ActionView::Finished(*outcome),
        }
    }
}

/// Whether a consumer that has waited this long announces its readiness
/// before the next attempt: it does while the count of whole seconds waited
/// is even.
pub open spec fn readiness_due_at(elapsed_ms: u64) -> bool {
    (elapsed_ms / 1000) % 2 == 0
}

/// Whether a consumer that has waited this long announces its readiness
/// before the next attempt.
pub fn readiness_due(elapsed_ms: u64) -> (due: bool)
    ensures
        due == readiness_due_at(elapsed_ms),
{
    (elapsed_ms / 1000) % 2 == 0
}

/// The outcome of a session whose peer sent the end frame after `completed`
/// of `iteration_count` iterations had run.
pub open spec fn outcome_at_end(completed: u64, iteration_count: u64) -> SessionOutcome {
    if completed >= iteration_count {
        SessionOutcome::CompletedAllIterations
    } else {
        SessionOutcome::PeerClosed
    }
}

/// The outcome of a session whose peer sent the end frame after `completed`
/// of `iteration_count` iterations had run.
pub fn outcome_on_end(completed: u64, iteration_count: u64) -> (outcome: SessionOutcome)
    ensures
        outcome == outcome_at_end(completed, iteration_count),
{
    if completed >= iteration_count {
        SessionOutcome::CompletedAllIterations
    } else {
        SessionOutcome::PeerClosed
    }
}

/// The violation that a refused frame amounts to.
pub open spec fn violation_of(e: FrameError) -> Violation {
    match e {
        FrameError::ProtocolViolation(tag) => Violation::UnknownTag(tag),
        FrameError::FrameCorrupt(claimed) => Violation::CorruptFrame(claimed),
        FrameError::Truncated => Violation::TruncatedFrame,
    }
}

/// The violation that a refused frame amounts to.
pub fn violation_from(e: FrameError) -> (v: Violation)
    ensures
        v == violation_of(e),
{
    match e {
        FrameError::ProtocolViolation(tag) => Violation::UnknownTag(tag),
        FrameError::FrameCorrupt(claimed) => Violation::CorruptFrame(claimed),
        FrameError::Truncated => Violation::TruncatedFrame,
    }
}

/// Everything a session remembers.
#[derive(Debug, Clone, Copy, PartialEq, Eq, Structural)]
pub struct SessionState {
    /// Which persona this side is.
    pub peer: PeerRole,
    /// The time limits.
    pub timing: Timing,
    /// Where the session stands.
    pub stage: Stage,
    /// The negotiated configuration. A responder holds zeros until the
    /// configuration has arrived.
    pub config: SessionConfig,
    /// The number of iterations that have run, which is the index of the
    /// current one.
    pub index: u64,
    /// When the current wait began.
    pub since_ms: u64,
    /// How the session ended, once it has.
    pub outcome: Option<SessionOutcome>,
}

impl SessionState {
    /// A session that has not started.
    pub open spec fn idle(peer: PeerRole, config: SessionConfig, timing: Timing) -> SessionState {
        SessionState {
            peer,
            timing,
            stage: Stage::Idle,
            config,
            index: 0,
            since_ms: 0,
            outcome: None,
        }
    }

    /// What holds of every state that a session reaches.
    pub open spec fn wf(self) -> bool {
        &&& self.index <= self.config.iteration_count
        &&& match self.stage {
            Stage::Idle => self.index == 0 && self.outcome is None,
            Stage::SendingConfig => self.peer == PeerRole::Initiator && self.index == 0
                && self.outcome is None,
            Stage::AwaitingConfig => self.peer == PeerRole::Responder && self.index == 0
                && self.outcome is None,
            Stage::Producing | Stage::AwaitingConfirm => self.index < self.config.iteration_count
                && turn_of(self.peer, self.index) == TurnRole::Producer && self.outcome is None,
            Stage::Polling | Stage::Delivering => self.index < self.config.iteration_count
                && turn_of(self.peer, self.index) == TurnRole::Consumer && self.outcome is None,
            Stage::Terminating | Stage::Closed => match self.outcome {
                None => false,
                Some(SessionOutcome::CompletedAllIterations) => self.index
                    == self.config.iteration_count,
                Some(SessionOutcome::TimedOut(at)) => at == self.index && self.index
                    < self.config.iteration_count,
                Some(_) => true,
            },
        }
    }

    /// The stage, named by what the session is doing.
    pub open spec fn phase(self) -> Phase {
        match self.stage {
            Stage::Idle => Phase::Idle,
            Stage::SendingConfig | Stage::AwaitingConfig => Phase::ConfigExchange,
            Stage::Producing | Stage::AwaitingConfirm => Phase::ActingAsProducer,
            Stage::Polling | Stage::Delivering => Phase::ActingAsConsumer,
            Stage::Terminating => Phase::Terminating,
            Stage::Closed => Phase::Closed,
        }
    }

    /// The time waited at `now_ms` since the current wait began. A clock that
    /// ran backwards counts as no time.
    pub open spec fn elapsed(self, now_ms: u64) -> u64 {
        if now_ms >= self.since_ms {
            (now_ms - self.since_ms) as u64
        } else {
            0
        }
    }

    /// Whether the deadline of the current wait has passed at `now_ms`.
    pub open spec fn overdue(self, now_ms: u64) -> bool {
        self.elapsed(now_ms) >= self.timing.timeout_ms
    }

    /// The session ends with `outcome`. The end frame is sent unless the peer
    /// is gone.
    pub open spec fn stopped(self, outcome: SessionOutcome) -> (SessionState, ActionView) {
        (
            SessionState { stage: Stage::Terminating, outcome: Some(outcome), ..self },
            ActionView::Terminate { send_end: outcome != SessionOutcome::PeerClosed },
        )
    }

    /// The next attempt of a consumer at `now_ms`, after a pause of at most
    /// `delay_ms`. The pause and the attempt together end at the deadline.
    pub open spec fn polling(self, now_ms: u64, delay_ms: u64) -> ActionView {
        let elapsed: u64 = self.elapsed(now_ms);
        let remaining: u64 = (self.timing.timeout_ms - elapsed) as u64;
        let pause: u64 = if delay_ms <= remaining {
            delay_ms
        } else {
            remaining
        };
        ActionView::Poll {
            announce: readiness_due_at((elapsed + pause) as u64),
            delay_ms: pause,
            within_ms: (remaining - pause) as u64,
        }
    }

    /// The wait of a producer for the confirmation at `now_ms`.
    pub open spec fn awaiting(self, now_ms: u64) -> ActionView {
        ActionView::AwaitConfirm((self.timing.timeout_ms - self.elapsed(now_ms)) as u64)
    }

    /// The iteration with the current index begins at `now_ms`, or the session
    /// completes if no iteration is left. A producer announces itself before
    /// every batch; a consumer begins to wait.
    pub open spec fn begun(self, now_ms: u64) -> (SessionState, ActionView) {
        if self.index >= self.config.iteration_count {
            self.stopped(SessionOutcome::CompletedAllIterations)
        } else if turn_of(self.peer, self.index) == TurnRole::Producer {
            (
                SessionState { stage: Stage::Producing, ..self },
                ActionView::Produce { batch_size: self.config.batch_size, announce: true },
            )
        } else {
            let waiting: SessionState = SessionState {
                stage: Stage::Polling,
                since_ms: now_ms,
                ..self
            };
            (waiting, waiting.polling(now_ms, 0))
        }
    }

    /// The current iteration is over at `now_ms`; the next one begins.
    pub open spec fn advanced(self, now_ms: u64) -> (SessionState, ActionView) {
        (SessionState { index: (self.index + 1) as u64, ..self }).begun(now_ms)
    }

    /// The protocol: the state and the action that follow from this state
    /// when `event` is reported at `now_ms`.
    ///
    /// While a consumer waits for data or a producer for the confirmation, the
    /// deadline is judged first: whatever is reported once it has passed, the
    /// session times out. An event that the pending action cannot bring ends
    /// the session as a violation.
    pub open spec fn next(self, now_ms: u64, event: EventView) -> (SessionState, ActionView) {
        let out_of_sequence: (SessionState, ActionView) = self.stopped(
            SessionOutcome::ProtocolViolation(Violation::OutOfSequence),
        );
        match self.stage {
            Stage::Idle => match event {
                EventView::Connected => match self.peer {
                    PeerRole::Initiator => (
                        SessionState { stage: Stage::SendingConfig, ..self },
                        ActionView::SendConfig(self.config),
                    ),
                    PeerRole::Responder => (
                        SessionState { stage: Stage::AwaitingConfig, ..self },
                        ActionView::ReceiveConfig,
                    ),
                },
                _ => out_of_sequence,
            },
            Stage::SendingConfig => match event {
                EventView::Sent => self.begun(now_ms),
                EventView::SendFailed => self.stopped(SessionOutcome::PeerClosed),
                EventView::Unencodable => self.stopped(
                    SessionOutcome::ProtocolViolation(Violation::Unencodable),
                ),
                _ => out_of_sequence,
            },
            Stage::AwaitingConfig => match event {
                EventView::Config(config) => (SessionState { config, ..self }).begun(now_ms),
                EventView::Quiet => (self, ActionView::ReceiveConfig),
                EventView::Disconnected => self.stopped(SessionOutcome::PeerClosed),
                EventView::Rejected(e) => self.stopped(
                    SessionOutcome::ProtocolViolation(violation_of(e)),
                ),
                EventView::Garbled => self.stopped(
                    SessionOutcome::ProtocolViolation(Violation::MalformedPayload),
                ),
                EventView::Control | EventView::End | EventView::Batch(_) => self.stopped(
                    SessionOutcome::ProtocolViolation(Violation::ConfigExpected),
                ),
                _ => out_of_sequence,
            },
            Stage::Producing => match event {
                EventView::Sent => {
                    let waiting: SessionState = SessionState {
                        stage: Stage::AwaitingConfirm,
                        since_ms: now_ms,
                        ..self
                    };
                    (waiting, waiting.awaiting(now_ms))
                },
                EventView::SendFailed => self.stopped(SessionOutcome::PeerClosed),
                EventView::Unencodable => self.stopped(
                    SessionOutcome::ProtocolViolation(Violation::Unencodable),
                ),
                _ => out_of_sequence,
            },
            Stage::AwaitingConfirm => if self.overdue(now_ms) {
                self.stopped(SessionOutcome::TimedOut(self.index))
            } else {
                match event {
                    EventView::Confirm(_) => self.advanced(now_ms),
                    EventView::Quiet | EventView::Control => (self, self.awaiting(now_ms)),
                    EventView::Disconnected => self.stopped(SessionOutcome::PeerClosed),
                    _ => out_of_sequence,
                }
            },
            Stage::Polling => if self.overdue(now_ms) {
                self.stopped(SessionOutcome::TimedOut(self.index))
            } else {
                match event {
                    EventView::Batch(numbers) => (
                        SessionState { stage: Stage::Delivering, ..self },
                        ActionView::Deliver(numbers),
                    ),
                    EventView::Control => (self, self.polling(now_ms, 0)),
                    EventView::Quiet => (self, self.polling(now_ms, self.timing.poll_delay_ms)),
                    EventView::End => self.stopped(
                        outcome_at_end(self.index, self.config.iteration_count),
                    ),
                    EventView::Disconnected => self.stopped(SessionOutcome::PeerClosed),
                    EventView::Rejected(e) => self.stopped(
                        SessionOutcome::ProtocolViolation(violation_of(e)),
                    ),
                    EventView::Garbled => self.stopped(
                        SessionOutcome::ProtocolViolation(Violation::MalformedPayload),
                    ),
                    _ => out_of_sequence,
                }
            },
            Stage::Delivering => match event {
                EventView::Sent => self.advanced(now_ms),
                EventView::SendFailed => self.stopped(SessionOutcome::PeerClosed),
                _ => out_of_sequence,
            },
            Stage::Terminating => match self.outcome {
                Some(outcome) => (
                    SessionState { stage: Stage::Closed, ..self },
                    ActionView::Finished(outcome),
                ),
                None => out_of_sequence,
            },
            Stage::Closed => match self.outcome {
                Some(outcome) => (self, ActionView::Finished(outcome)),
                None => out_of_sequence,
            },
        }
    }
}

/// Every step leads from a state that a session reaches to another one.
pub proof fn lemma_next_keeps_wf(state: SessionState, now_ms: u64, event: EventView)
    requires
        state.wf(),
    ensures
        state.next(now_ms, event).0.wf(),
{
    if state.index < u64::MAX {
        crate::turn::lemma_turns_alternate(state.peer, state.index);
    }
}

impl SessionState {
    fn time_waited(&self, now_ms: u64) -> (elapsed: u64)
        ensures
            elapsed == self.elapsed(now_ms),
    {
        if now_ms >= self.since_ms {
            now_ms - self.since_ms
        } else {
            0
        }
    }

    fn stop(self, outcome: SessionOutcome) -> (r: (SessionState, Action))
        ensures
            r.0 == self.stopped(outcome).0,
            r.1@ == self.stopped(outcome).1,
    {
        let send_end: bool = match outcome {
            SessionOutcome::PeerClosed => false,
            _ => true,
        };
        (
            SessionState { stage: Stage::Terminating, outcome: Some(outcome), ..self },
            Action::Terminate { send_end },
        )
    }

    fn poll(&self, now_ms: u64, delay_ms: u64) -> (action: Action)
        requires
            !self.overdue(now_ms),
        ensures
            action@ == self.polling(now_ms, delay_ms),
    {
        let elapsed: u64 = self.time_waited(now_ms);
        let remaining: u64 = self.timing.timeout_ms - elapsed;
        let pause: u64 = if delay_ms <= remaining {
            delay_ms
        } else {
            remaining
        };
        Action::Poll {
            announce: readiness_due(elapsed + pause),
            delay_ms: pause,
            within_ms: remaining - pause,
        }
    }

    fn await_confirm(&self, now_ms: u64) -> (action: Action)
        requires
            !self.overdue(now_ms),
        ensures
            action@ == self.awaiting(now_ms),
    {
        Action::AwaitConfirm(self.timing.timeout_ms - self.time_waited(now_ms))
    }

    fn begin(self, now_ms: u64) -> (r: (SessionState, Action))
        ensures
            r.0 == self.begun(now_ms).0,
            r.1@ == self.begun(now_ms).1,
    {
        if self.index >= self.config.iteration_count {
            self.stop(SessionOutcome::CompletedAllIterations)
        } else {
            match role_at(self.peer, self.index) {
                TurnRole::Producer => (
                    SessionState { stage: Stage::Producing, ..self },
                    Action::Produce { batch_size: self.config.batch_size, announce: true },
                ),
                TurnRole::Consumer => {
                    let waiting: SessionState = SessionState {
                        stage: Stage::Polling,
                        since_ms: now_ms,
                        ..self
                    };
                    if waiting.timing.timeout_ms == 0 {
                        (waiting, Action::Poll { announce: true, delay_ms: 0, within_ms: 0 })
                    } else {
                        let action: Action = waiting.poll(now_ms, 0);
                        (waiting, action)
                    }
                },
            }
        }
    }

    fn advance(self, now_ms: u64) -> (r: (SessionState, Action))
        requires
            self.index < self.config.iteration_count,
        ensures
            r.0 == self.advanced(now_ms).0,
            r.1@ == self.advanced(now_ms).1,
    {
        (SessionState { index: self.index + 1, ..self }).begin(now_ms)
    }

    fn step(self, now_ms: u64, event: Event) -> (r: (SessionState, Action))
        requires
            self.wf(),
        ensures
            r.0 == self.next(now_ms, event@).0,
            r.1@ == self.next(now_ms, event@).1,
    {
        let out_of_sequence: SessionOutcome = SessionOutcome::ProtocolViolation(
            Violation::OutOfSequence,
        );
        match self.stage {
            Stage::Idle => match event {
                Event::Connected => match self.peer {
                    PeerRole::Initiator => (
                        SessionState { stage: Stage::SendingConfig, ..self },
                        Action::SendConfig(self.config),
                    ),
                    PeerRole::Responder => (
                        SessionState { stage: Stage::AwaitingConfig, ..self },
                        Action::ReceiveConfig,
                    ),
                },
                _ => self.stop(out_of_sequence),
            },
            Stage::SendingConfig => match event {
                Event::Sent => self.begin(now_ms),
                Event::SendFailed => self.stop(SessionOutcome::PeerClosed),
                Event::Unencodable => self.stop(
                    SessionOutcome::ProtocolViolation(Violation::Unencodable),
                ),
                _ => self.stop(out_of_sequence),
            },
            Stage::AwaitingConfig => match event {
                Event::Config(config) => (SessionState { config, ..self }).begin(now_ms),
                Event::Quiet => (self, Action::ReceiveConfig),
                Event::Disconnected => self.stop(SessionOutcome::PeerClosed),
                Event::Rejected(e) => self.stop(
                    SessionOutcome::ProtocolViolation(violation_from(e)),
                ),
                Event::Garbled => self.stop(
                    SessionOutcome::ProtocolViolation(Violation::MalformedPayload),
                ),
                Event::Control | Event::End | Event::Batch(_) => self.stop(
                    SessionOutcome::ProtocolViolation(Violation::ConfigExpected),
                ),
                _ => self.stop(out_of_sequence),
            },
            Stage::Producing => match event {
                Event::Sent => {
                    let waiting: SessionState = SessionState {
                        stage: Stage::AwaitingConfirm,
                        since_ms: now_ms,
                        ..self
                    };
                    (waiting, Action::AwaitConfirm(waiting.timing.timeout_ms))
                },
                Event::SendFailed => self.stop(SessionOutcome::PeerClosed),
                Event::Unencodable => self.stop(
                    SessionOutcome::ProtocolViolation(Violation::Unencodable),
                ),
                _ => self.stop(out_of_sequence),
            },
            Stage::AwaitingConfirm => if self.time_waited(now_ms) >= self.timing.timeout_ms {
                self.stop(SessionOutcome::TimedOut(self.index))
            } else {
                match event {
                    Event::Confirm(_) => self.advance(now_ms),
                    Event::Quiet | Event::Control => {
                        let action: Action = self.await_confirm(now_ms);
                        (self, action)
                    },
                    Event::Disconnected => self.stop(SessionOutcome::PeerClosed),
                    _ => self.stop(out_of_sequence),
                }
            },
            Stage::Polling => if self.time_waited(now_ms) >= self.timing.timeout_ms {
                self.stop(SessionOutcome::TimedOut(self.index))
            } else {
                match event {
                    Event::Batch(numbers) => (
                        SessionState { stage: Stage::Delivering, ..self },
                        Action::Deliver(numbers),
                    ),
                    Event::Control => {
                        let action: Action = self.poll(now_ms, 0);
                        (self, action)
                    },
                    Event::Quiet => {
                        let action: Action = self.poll(now_ms, self.timing.poll_delay_ms);
                        (self, action)
                    },
                    Event::End => self.stop(
                        outcome_on_end(self.index, self.config.iteration_count),
                    ),
                    Event::Disconnected => self.stop(SessionOutcome::PeerClosed),
                    Event::Rejected(e) => self.stop(
                        SessionOutcome::ProtocolViolation(violation_from(e)),
                    ),
                    Event::Garbled => self.stop(
                        SessionOutcome::ProtocolViolation(Violation::MalformedPayload),
                    ),
                    _ => self.stop(out_of_sequence),
                }
            },
            Stage::Delivering => match event {
                Event::Sent => self.advance(now_ms),
                Event::SendFailed => self.stop(SessionOutcome::PeerClosed),
                _ => self.stop(out_of_sequence),
            },
            Stage::Terminating => match self.outcome {
                Some(outcome) => (
                    SessionState { stage: Stage::Closed, ..self },
                    Action::Finished(outcome),
                ),
                None => self.stop(out_of_sequence),
            },
            Stage::Closed => match self.outcome {
                Some(outcome) => (self, Action::Finished(outcome)),
                None => self.stop(out_of_sequence),
            },
        }
    }
}

/// One side of one connection, from the moment the transport is there to
/// the close.
#[derive(Debug)]
pub struct Session {
    state: SessionState,
}

impl View for Session {
    type V = SessionState;

    closed spec fn view(&self) -> SessionState {
        self.state
    }
}

impl Session {
    #[verifier::type_invariant]
    spec fn inv(self) -> bool {
        self.state.wf()
    }

    /// The session of the side that accepts the connection and decides the
    /// configuration.
    pub fn initiator(config: SessionConfig, timing: Timing) -> (session: Session)
        ensures
            session@ == SessionState::idle(PeerRole::Initiator, config, timing),
    {
        Session {
            state: SessionState {
                peer: PeerRole::Initiator,
                timing,
                stage: Stage::Idle,
                config,
                index: 0,
                since_ms: 0,
                outcome: None,
            },
        }
    }

    /// The session of the side that connects and is told the configuration.
    pub fn responder(timing: Timing) -> (session: Session)
        ensures
            session@ == SessionState::idle(
                PeerRole::Responder,
                SessionConfig { batch_size: 0, iteration_count: 0 },
                timing,
            ),
    {
        Session {
            state: SessionState {
                peer: PeerRole::Responder,
                timing,
                stage: Stage::Idle,
                config: SessionConfig { batch_size: 0, iteration_count: 0 },
                index: 0,
                since_ms: 0,
                outcome: None,
            },
        }
    }

    /// Everything the session remembers.
    pub fn state(&self) -> (state: SessionState)
        ensures
            state == self@,
            state.wf(),
    {
        proof {
            use_type_invariant(self);
        }
        self.state
    }

    /// Where the session stands, coarsely.
    pub fn phase(&self) -> (phase: Phase)
        ensures
            phase == self@.phase(),
    {
        match self.state.stage {
            Stage::Idle => Phase::Idle,
            Stage::SendingConfig | Stage::AwaitingConfig => Phase::ConfigExchange,
            Stage::Producing | Stage::AwaitingConfirm => Phase::ActingAsProducer,
            Stage::Polling | Stage::Delivering => Phase::ActingAsConsumer,
            Stage::Terminating => Phase::Terminating,
            Stage::Closed => Phase::Closed,
        }
    }

    /// The current iteration, while the session stands in one.
    pub fn iteration(&self) -> (iteration: Option<IterationState>)
        ensures
            iteration == match self@.phase() {
                Phase::ActingAsProducer | Phase::ActingAsConsumer => Some(
                    IterationState { index: self@.index },
                ),
                _ => None,
            },
    {
        match self.state.stage {
            Stage::Producing | Stage::AwaitingConfirm | Stage::Polling | Stage::Delivering => Some(
                IterationState { index: self.state.index },
            ),
            _ => None,
        }
    }

    /// Whether the next data frame is to be read as the configuration.
    pub fn expects_config(&self) -> (expects: bool)
        ensures
            expects == (self@.stage == Stage::AwaitingConfig),
    {
        match self.state.stage {
            Stage::AwaitingConfig => true,
            _ => false,
        }
    }

    /// How the session ended, once it has.
    pub fn outcome(&self) -> (outcome: Option<SessionOutcome>)
        ensures
            outcome == self@.outcome,
    {
        self.state.outcome
    }

    /// Takes in what the driver reports at `now_ms` and says what to do next.
    pub fn step(&mut self, now_ms: u64, event: Event) -> (action: Action)
        ensures
            final(self)@ == old(self)@.next(now_ms, event@).0,
            action@ == old(self)@.next(now_ms, event@).1,
    {
        proof {
            use_type_invariant(&*self);
            lemma_next_keeps_wf(self.state, now_ms, event@);
        }
        let (state, action) = self.state.step(now_ms, event);
        self.state = state;
        action
    }
}

} // verus!
