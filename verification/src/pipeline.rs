//! The decisions of the per-asset pipeline and of a subscriber's loop.
//!
//! The pipeline takes ticks in order, renders one packet per tick and
//! publishes it; a subscriber forwards the packets of its asset to a
//! socket. Both loops wait on outside work; what they do with each outcome
//! is decided here.

use vstd::prelude::*;

verus! {

/// Price changes that one relative strength index spans in a pipeline.
pub const RSI_PERIOD: usize = 14;

/// Samples that each window of a pipeline keeps.
pub const PIPELINE_WINDOW: usize = 512;

/// What the pipeline of one asset observed.
#[derive(Debug, Clone, Copy, PartialEq, Eq, Structural)]
pub enum PipelineEvent {
    /// The transport delivered a tick.
    TickArrived,
    /// The renderer produced the chunk for the current tick.
    ChunkRendered,
    /// The renderer failed on the current tick.
    RenderFailed,
    /// The transport is closed: no tick will come.
    TransportClosed,
}

/// What the pipeline is to do next.
#[derive(Debug, Clone, Copy, PartialEq, Eq, Structural)]
pub enum PipelineAction {
    /// Derive metrics, pick the style, map and render for the tick.
    Process,
    /// Publish the packet of the current tick, then wait for the next tick.
    Publish,
    /// Drop the current tick's packet and wait for the next tick.
    Skip,
    /// End the pipeline.
    Terminate,
}

impl PipelineEvent {
    /// What follows an event. A failed render costs the tick's packet and
    /// nothing else; only a closed transport ends the pipeline.
    pub open spec fn response(self) -> PipelineAction {
        match self {
            PipelineEvent::TickArrived => PipelineAction::Process,
            PipelineEvent::ChunkRendered => PipelineAction::Publish,
            PipelineEvent::RenderFailed => PipelineAction::Skip,
            PipelineEvent::TransportClosed => PipelineAction::Terminate,
        }
    }

    pub fn respond(self) -> (action: PipelineAction)
        ensures
            action == self.response(),
            action == PipelineAction::Terminate <==> self == PipelineEvent::TransportClosed,
            action == PipelineAction::Publish <==> self == PipelineEvent::ChunkRendered,
    {
        match self {
            PipelineEvent::TickArrived => PipelineAction::Process,
            PipelineEvent::ChunkRendered => PipelineAction::Publish,
            PipelineEvent::RenderFailed => PipelineAction::Skip,
            PipelineEvent::TransportClosed => PipelineAction::Terminate,
        }
    }
}

/// What a subscriber's loop observed, on its socket or from the hub.
#[derive(Debug, Clone, Copy, PartialEq, Eq, Structural)]
pub enum SubscriberEvent {
    /// The peer sent a ping.
    Ping,
    /// The peer sent a close frame.
    CloseFrame,
    /// The socket ended.
    Disconnected,
    /// The socket reported an error on receipt.
    SocketError,
    /// The peer sent any other frame.
    OtherFrame,
    /// The hub delivered a packet.
    Packet,
    /// The hub reports that the subscriber fell behind and missed this
    /// many packets.
    Lagged(u64),
    /// The hub is closed.
    HubClosed,
    /// A frame was written to the socket.
    Sent,
    /// Writing to the socket failed.
    SendFailed,
}

/// What the subscriber's loop is to do next.
#[derive(Debug, Clone, Copy, PartialEq, Eq, Structural)]
pub enum SubscriberAction {
    /// Answer the ping with a pong of the same payload.
    ReplyPong,
    /// Write the packet to the socket.
    Forward,
    /// Note that this many packets were missed, and go on with the next
    /// live packet.
    ReportLag(u64),
    /// Go on waiting.
    Continue,
    /// Leave the loop.
    End,
}

impl SubscriberEvent {
    /// The event ends the loop: the peer is gone, or a transport failed.
    pub open spec fn is_final(self) -> bool {
        matches!(
            self,
            SubscriberEvent::CloseFrame | SubscriberEvent::Disconnected
                | SubscriberEvent::SocketError | SubscriberEvent::HubClosed
                | SubscriberEvent::SendFailed
        )
    }

    /// What follows an event.
    pub open spec fn response(self) -> SubscriberAction {
        match self {
            SubscriberEvent::Ping => SubscriberAction::ReplyPong,
            SubscriberEvent::Packet => SubscriberAction::Forward,
            SubscriberEvent::Lagged(skipped) => SubscriberAction::ReportLag(skipped),
            SubscriberEvent::OtherFrame | SubscriberEvent::Sent => SubscriberAction::Continue,
            _ => SubscriberAction::End,
        }
    }

    /// Decides one turn of a subscriber's loop. Falling behind never ends
    /// the loop: the count of missed packets is reported and the loop goes
    /// on.
    pub fn respond(self) -> (action: SubscriberAction)
        ensures
            action == self.response(),
            action == SubscriberAction::End <==> self.is_final(),
    {
        match self {
            SubscriberEvent::Ping => SubscriberAction::ReplyPong,
            SubscriberEvent::Packet => SubscriberAction::Forward,
            SubscriberEvent::Lagged(skipped) => SubscriberAction::ReportLag(skipped),
            SubscriberEvent::OtherFrame => SubscriberAction::Continue,
            SubscriberEvent::Sent => SubscriberAction::Continue,
            SubscriberEvent::CloseFrame => SubscriberAction::End,
            SubscriberEvent::Disconnected => SubscriberAction::End,
            SubscriberEvent::SocketError => SubscriberAction::End,
            SubscriberEvent::HubClosed => SubscriberAction::End,
            SubscriberEvent::SendFailed => SubscriberAction::End,
        }
    }
}

} // verus!
