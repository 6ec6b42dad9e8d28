//! The retry rules of the two ingestion adapters, as state machines.
//!
//! An adapter performs the action that a step asks for (connect, wait for
//! a message, fetch, hand a tick to the sink, sleep) and reports what came
//! of it as the next event. Both adapters retry for ever after a failure
//! and stop only when the sink that takes their ticks is closed.

use vstd::prelude::*;

verus! {

/// Seconds within which a connection attempt must succeed.
pub const CONNECTION_TIMEOUT_SECS: u64 = 30;

/// Seconds within which a connected stream must deliver a message.
pub const HEARTBEAT_TIMEOUT_SECS: u64 = 45;

/// Seconds the streaming adapter waits before it connects again.
pub const RECONNECT_DELAY_SECS: u64 = 3;

/// Seconds the polling adapter waits after a failed fetch.
pub const FETCH_BACKOFF_SECS: u64 = 5;

/// Seconds between two polls where nothing else is configured.
pub const DEFAULT_POLL_INTERVAL_SECS: u64 = 15;

/// Ticks that the transport of a streaming adapter holds before the
/// adapter has to wait.
pub const STREAM_TICK_BUFFER: usize = 512;

/// Where the streaming adapter stands.
#[derive(Debug, Clone, Copy, PartialEq, Eq, Structural)]
pub enum StreamState {
    /// A connection attempt is under way.
    Connecting,
    /// Connected: waiting for a message or handing a tick to the sink.
    Streaming,
    /// Waiting out the delay before the next connection attempt.
    BackingOff,
    /// The sink is closed; the adapter has ended.
    Stopped,
}

/// What the streaming adapter observed.
#[derive(Debug, Clone, Copy, PartialEq, Eq, Structural)]
pub enum StreamEvent {
    /// The connection is open.
    Connected,
    /// The connection attempt failed.
    ConnectFailed,
    /// The connection attempt outlasted its timeout.
    ConnectTimedOut,
    /// A trade message arrived and was read as a tick.
    TradeReceived,
    /// A message arrived that carries no text.
    FrameIgnored,
    /// A text message arrived that is no trade message.
    MessageMalformed,
    /// No message arrived within the heartbeat timeout.
    HeartbeatTimedOut,
    /// The connection reported an error.
    StreamFailed,
    /// The peer ended the stream.
    StreamEnded,
    /// The sink took the tick.
    TickSent,
    /// The sink is closed.
    SinkClosed,
    /// The delay before the next attempt is over.
    BackoffElapsed,
}

/// What the streaming adapter is to do next.
#[derive(Debug, Clone, Copy, PartialEq, Eq, Structural)]
pub enum StreamAction {
    /// Open the connection, giving up after `timeout_secs`.
    Connect { timeout_secs: u64 },
    /// Wait for the next message, giving up after `timeout_secs`.
    AwaitMessage { timeout_secs: u64 },
    /// Hand the tick just read to the sink.
    Emit,
    /// Drop the connection, if any, and sleep for `secs`.
    Sleep { secs: u64 },
    /// End the adapter.
    Stop,
}

impl StreamEvent {
    /// The event reports a failure of the connection or of an attempt.
    pub open spec fn is_failure(self) -> bool {
        matches!(
            self,
            StreamEvent::ConnectFailed | StreamEvent::ConnectTimedOut
                | StreamEvent::MessageMalformed | StreamEvent::HeartbeatTimedOut
                | StreamEvent::StreamFailed | StreamEvent::StreamEnded
        )
    }
}

impl StreamState {
    /// The action that a state is waiting on.
    pub open spec fn pending(self) -> StreamAction {
        match self {
            StreamState::Connecting => StreamAction::Connect {
                timeout_secs: CONNECTION_TIMEOUT_SECS,
            },
            StreamState::Streaming => StreamAction::AwaitMessage {
                timeout_secs: HEARTBEAT_TIMEOUT_SECS,
            },
            StreamState::BackingOff => StreamAction::Sleep { secs: RECONNECT_DELAY_SECS },
            StreamState::Stopped => StreamAction::Stop,
        }
    }

    /// The state and action that follow `event` in this state.
    ///
    /// A closed sink stops the adapter from any state, and a stopped
    /// adapter stays stopped. A failure while connecting or streaming
    /// leads to the fixed delay and then to a new attempt. An event that
    /// a state does not wait for leaves the state as it is.
    pub open spec fn next(self, event: StreamEvent) -> (StreamState, StreamAction) {
        if self == StreamState::Stopped || event == StreamEvent::SinkClosed {
            (StreamState::Stopped, StreamAction::Stop)
        } else if self == StreamState::Connecting && event == StreamEvent::Connected {
            (StreamState::Streaming, StreamState::Streaming.pending())
        } else if self == StreamState::BackingOff && event == StreamEvent::BackoffElapsed {
            (StreamState::Connecting, StreamState::Connecting.pending())
        } else if self == StreamState::Streaming && event == StreamEvent::TradeReceived {
            (StreamState::Streaming, StreamAction::Emit)
        } else if self != StreamState::BackingOff && event.is_failure() {
            (StreamState::BackingOff, StreamState::BackingOff.pending())
        } else {
            (self, self.pending())
        }
    }

    /// The state in which an adapter starts, and its first action.
    pub fn start() -> (step: (StreamState, StreamAction))
        ensures
            step.0 == StreamState::Connecting,
            step.1 == StreamState::Connecting.pending(),
    {
        (StreamState::Connecting, StreamAction::Connect { timeout_secs: CONNECTION_TIMEOUT_SECS })
    }

    /// Takes one step of the streaming adapter.
    pub fn step(self, event: StreamEvent) -> (step: (StreamState, StreamAction))
        ensures
            step == self.next(event),
    {
        match (self, event) {
            (StreamState::Stopped, _) | (_, StreamEvent::SinkClosed) => (
                StreamState::Stopped,
                StreamAction::Stop,
            ),
            (StreamState::Connecting, StreamEvent::Connected) => (
                StreamState::Streaming,
                StreamAction::AwaitMessage { timeout_secs: HEARTBEAT_TIMEOUT_SECS },
            ),
            (StreamState::BackingOff, StreamEvent::BackoffElapsed) => (
                StreamState::Connecting,
                StreamAction::Connect { timeout_secs: CONNECTION_TIMEOUT_SECS },
            ),
            (StreamState::Streaming, StreamEvent::TradeReceived) => (
                StreamState::Streaming,
                StreamAction::Emit,
            ),
            (StreamState::Connecting, StreamEvent::ConnectFailed)
            | (StreamState::Connecting, StreamEvent::ConnectTimedOut)
            | (StreamState::Connecting, StreamEvent::MessageMalformed)
            | (StreamState::Connecting, StreamEvent::HeartbeatTimedOut)
            | (StreamState::Connecting, StreamEvent::StreamFailed)
            | (StreamState::Connecting, StreamEvent::StreamEnded)
            | (StreamState::Streaming, StreamEvent::ConnectFailed)
            | (StreamState::Streaming, StreamEvent::ConnectTimedOut)
            | (StreamState::Streaming, StreamEvent::MessageMalformed)
            | (StreamState::Streaming, StreamEvent::HeartbeatTimedOut)
            | (StreamState::Streaming, StreamEvent::StreamFailed)
            | (StreamState::Streaming, StreamEvent::StreamEnded) => (
                StreamState::BackingOff,
                StreamAction::Sleep { secs: RECONNECT_DELAY_SECS },
            ),
            (StreamState::Connecting, _) => (
                StreamState::Connecting,
                StreamAction::Connect { timeout_secs: CONNECTION_TIMEOUT_SECS },
            ),
            (StreamState::Streaming, _) => (
                StreamState::Streaming,
                StreamAction::AwaitMessage { timeout_secs: HEARTBEAT_TIMEOUT_SECS },
            ),
            (StreamState::BackingOff, _) => (
                StreamState::BackingOff,
                StreamAction::Sleep { secs: RECONNECT_DELAY_SECS },
            ),
        }
    }
}

/// The state that a streaming adapter reaches from `state` through the
/// events of `events`, first to last.
pub open spec fn stream_run(state: StreamState, events: Seq<StreamEvent>) -> StreamState
    decreases events.len(),
{
    if events.len() == 0 {
        state
    } else {
        stream_run(state, events.drop_last()).next(events.last()).0
    }
}

/// A failed or timed-out connection attempt is answered by a sleep of
/// exactly the reconnect delay, and the end of that sleep by a new attempt
/// under the connection timeout.
pub proof fn failed_attempt_is_retried_after_the_delay(event: StreamEvent)
    requires
        event == StreamEvent::ConnectFailed || event == StreamEvent::ConnectTimedOut,
    ensures
        StreamState::Connecting.next(event) == (
            StreamState::BackingOff,
            StreamAction::Sleep { secs: 3 },
        ),
        StreamState::BackingOff.next(StreamEvent::BackoffElapsed) == (
            StreamState::Connecting,
            StreamAction::Connect { timeout_secs: 30 },
        ),
{
}

/// A tick is handed to the sink only on a trade message of an open
/// connection: no step taken while connecting, backing off or stopped
/// emits one, whatever the event.
pub proof fn ticks_come_from_open_streams_only(state: StreamState, event: StreamEvent)
    ensures
        state.next(event).1 == StreamAction::Emit <==> (state == StreamState::Streaming && event
            == StreamEvent::TradeReceived),
{
}

/// Between a failure and the next open connection no tick is emitted:
/// as long as no `Connected` event arrives after a step that led to the
/// delay, every further step asks for something other than `Emit`.
pub proof fn no_tick_before_reconnect(events: Seq<StreamEvent>, event: StreamEvent)
    requires
        forall|i: int| 0 <= i < events.len() ==> events[i] != StreamEvent::Connected,
    ensures
        stream_run(StreamState::BackingOff, events) != StreamState::Streaming,
        stream_run(StreamState::BackingOff, events).next(event).1 != StreamAction::Emit,
    decreases events.len(),
{
    if events.len() > 0 {
        no_tick_before_reconnect(events.drop_last(), events.last());
    }
}

/// The adapter ends exactly when the sink is closed: a step leads to
/// `Stopped` if and only if the adapter had stopped before or the event
/// says that the sink is closed. Failures never end it.
pub proof fn only_a_closed_sink_stops_the_stream(state: StreamState, event: StreamEvent)
    ensures
        state.next(event).0 == StreamState::Stopped <==> (state == StreamState::Stopped || event
            == StreamEvent::SinkClosed),
        state.next(event).1 == StreamAction::Stop <==> state.next(event).0 == StreamState::Stopped,
{
}

/// Where the polling adapter stands.
#[derive(Debug, Clone, Copy, PartialEq, Eq, Structural)]
pub enum PollState {
    /// Waiting for the interval timer.
    Waiting,
    /// A fetch is under way.
    Fetching,
    /// A tick is being handed to the sink.
    Emitting,
    /// Waiting out the delay after a failed fetch.
    BackingOff,
    /// The sink is closed; the adapter has ended.
    Stopped,
}

/// What the polling adapter observed.
#[derive(Debug, Clone, Copy, PartialEq, Eq, Structural)]
pub enum PollEvent {
    /// The interval timer fired.
    IntervalElapsed,
    /// The fetch yielded a datapoint.
    Fetched,
    /// The fetch failed or yielded no datapoint.
    FetchFailed,
    /// The sink took the tick.
    TickSent,
    /// The sink is closed.
    SinkClosed,
    /// The delay after the failure is over.
    BackoffElapsed,
}

/// What the polling adapter is to do next.
#[derive(Debug, Clone, Copy, PartialEq, Eq, Structural)]
pub enum PollAction {
    /// Wait for the interval timer, which runs on whatever else happens.
    AwaitInterval,
    /// Fetch the latest datapoint.
    Fetch,
    /// Hand the datapoint just fetched to the sink as a tick.
    Emit,
    /// Sleep for `secs`.
    Sleep { secs: u64 },
    /// End the adapter.
    Stop,
}

impl PollState {
    /// The action that a state is waiting on.
    pub open spec fn pending(self) -> PollAction {
        match self {
            PollState::Waiting => PollAction::AwaitInterval,
            PollState::Fetching => PollAction::Fetch,
            PollState::Emitting => PollAction::Emit,
            PollState::BackingOff => PollAction::Sleep { secs: FETCH_BACKOFF_SECS },
            PollState::Stopped => PollAction::Stop,
        }
    }

    /// The state that follows `event` in this state.
    ///
    /// One fetch per timer tick; a datapoint is emitted, a failure is
    /// answered by the fixed delay, and either way the adapter then waits
    /// for the timer again. A closed sink stops the adapter. An event that
    /// a state does not wait for leaves the state as it is.
    pub open spec fn next_state(self, event: PollEvent) -> PollState {
        match (self, event) {
            (PollState::Stopped, _) => PollState::Stopped,
            (_, PollEvent::SinkClosed) => PollState::Stopped,
            (PollState::Waiting, PollEvent::IntervalElapsed) => PollState::Fetching,
            (PollState::Fetching, PollEvent::Fetched) => PollState::Emitting,
            (PollState::Fetching, PollEvent::FetchFailed) => PollState::BackingOff,
            (PollState::Emitting, PollEvent::TickSent) => PollState::Waiting,
            (PollState::BackingOff, PollEvent::BackoffElapsed) => PollState::Waiting,
            _ => self,
        }
    }

    /// The state and action that follow `event` in this state: the next
    /// state and what it waits on.
    pub open spec fn next(self, event: PollEvent) -> (PollState, PollAction) {
        (self.next_state(event), self.next_state(event).pending())
    }

    /// The state in which an adapter starts, and its first action.
    pub fn start() -> (step: (PollState, PollAction))
        ensures
            step.0 == PollState::Waiting,
            step.1 == PollState::Waiting.pending(),
    {
        (PollState::Waiting, PollAction::AwaitInterval)
    }

    /// The action that this state waits on.
    pub fn action(self) -> (action: PollAction)
        ensures
            action == self.pending(),
    {
        match self {
            PollState::Waiting => PollAction::AwaitInterval,
            PollState::Fetching => PollAction::Fetch,
            PollState::Emitting => PollAction::Emit,
            PollState::BackingOff => PollAction::Sleep { secs: FETCH_BACKOFF_SECS },
            PollState::Stopped => PollAction::Stop,
        }
    }

    /// Takes one step of the polling adapter.
    pub fn step(self, event: PollEvent) -> (step: (PollState, PollAction))
        ensures
            step == self.next(event),
    {
        let state = match (self, event) {
            (PollState::Stopped, _) => PollState::Stopped,
            (_, PollEvent::SinkClosed) => PollState::Stopped,
            (PollState::Waiting, PollEvent::IntervalElapsed) => PollState::Fetching,
            (PollState::Fetching, PollEvent::Fetched) => PollState::Emitting,
            (PollState::Fetching, PollEvent::FetchFailed) => PollState::BackingOff,
            (PollState::Emitting, PollEvent::TickSent) => PollState::Waiting,
            (PollState::BackingOff, PollEvent::BackoffElapsed) => PollState::Waiting,
            (state, _) => state,
        };
        (state, state.action())
    }
}

/// A failed fetch emits nothing: it is answered by a sleep of exactly the
/// fetch delay, after which the adapter waits for the timer again.
pub proof fn failed_fetch_backs_off()
    ensures
        PollState::Fetching.next(PollEvent::FetchFailed) == (
            PollState::BackingOff,
            PollAction::Sleep { secs: 5 },
        ),
        PollState::BackingOff.next(PollEvent::BackoffElapsed) == (
            PollState::Waiting,
            PollAction::AwaitInterval,
        ),
{
}

/// A tick is emitted only for a datapoint that a fetch yielded, or again
/// on a stray event while that tick is still with the sink.
pub proof fn polled_ticks_come_from_fetches_only(state: PollState, event: PollEvent)
    ensures
        state.next(event).1 == PollAction::Emit <==> ((state == PollState::Fetching && event
            == PollEvent::Fetched) || (state == PollState::Emitting && event != PollEvent::TickSent
            && event != PollEvent::SinkClosed)),
{
}

/// The polling adapter ends exactly when the sink is closed.
pub proof fn only_a_closed_sink_stops_the_poller(state: PollState, event: PollEvent)
    ensures
        state.next(event).0 == PollState::Stopped <==> (state == PollState::Stopped || event
            == PollEvent::SinkClosed),
        state.next(event).1 == PollAction::Stop <==> state.next(event).0 == PollState::Stopped,
{
}

} // verus!
