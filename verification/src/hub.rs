//! The distribution hub: one broadcast channel per asset.
//!
//! Packets are fanned out over `tokio`'s broadcast channel. A channel keeps
//! a bounded backlog; a subscriber that falls behind it is told how many
//! packets it missed and goes on with the oldest packet still kept. The hub
//! decides which channel a packet or a subscriber belongs to, and creates a
//! channel the first time its asset is asked for.

use crate::pipeline::SubscriberAction;
use tokio::sync::broadcast::{Receiver, Sender};
use vstd::prelude::*;
use vstd::string::StringExecFns;

verus! {

/// Packets that a channel keeps for subscribers that have not read them.
pub const HUB_CAPACITY: usize = 32;

/// `tokio::sync::broadcast::Sender`, the sending half of a broadcast
/// channel. Nothing of its inside is known here.
#[verifier::external_type_specification]
#[verifier::external_body]
#[verifier::reject_recursive_types(T)]
pub struct ExSender<T>(Sender<T>);

/// `tokio::sync::broadcast::Receiver`, one subscriber's cursor into a
/// broadcast channel. Nothing of its inside is known here.
#[verifier::external_type_specification]
#[verifier::external_body]
#[verifier::reject_recursive_types(T)]
pub struct ExReceiver<T>(Receiver<T>);

/// What a subscriber finds when it looks for its next packet.
#[derive(Debug, Clone, Copy, PartialEq, Eq)]
pub enum Delivery<P> {
    /// The next packet.
    Packet(P),
    /// The subscriber fell behind the backlog and missed this many packets.
    Lagged(u64),
    /// Nothing new has been published.
    Empty,
    /// The channel is closed and drained.
    Closed,
}

/// What became of a packet handed to the hub.
#[derive(Debug, Clone, Copy, PartialEq, Eq, Structural)]
pub enum Published {
    /// The asset has no channel: nothing was done.
    NoChannel,
    /// The asset's channel has no subscriber: the packet was dropped.
    NoSubscribers,
    /// The packet was queued for this many subscribers.
    Delivered(usize),
}

impl<P> Delivery<P> {
    /// What a subscriber's loop does on a delivery: it forwards a packet,
    /// reports a lag and goes on, waits on nothing new, and ends when the
    /// channel is closed.
    pub open spec fn response(self) -> SubscriberAction {
        match self {
            Delivery::Packet(_) => SubscriberAction::Forward,
            Delivery::Lagged(skipped) => SubscriberAction::ReportLag(skipped),
            Delivery::Empty => SubscriberAction::Continue,
            Delivery::Closed => SubscriberAction::End,
        }
    }

    pub fn respond(&self) -> (action: SubscriberAction)
        ensures
            action == self.response(),
    {
        match self {
            Delivery::Packet(_) => SubscriberAction::Forward,
            Delivery::Lagged(skipped) => SubscriberAction::ReportLag(*skipped),
            Delivery::Empty => SubscriberAction::Continue,
            Delivery::Closed => SubscriberAction::End,
        }
    }
}

/// Calls `tokio::sync::broadcast::channel` and keeps the sending half. The
/// call panics on a capacity of zero or above half of `usize::MAX`, which
/// the precondition leaves out. Nothing is claimed of the channel.
#[verifier::external_body]
fn open_channel<P: Clone>(capacity: usize) -> (sender: Sender<P>)
    requires
        0 < capacity <= usize::MAX / 2,
{
    let (sender, _) = tokio::sync::broadcast::channel(capacity);
    sender
}

/// Calls `Sender::send`. The call fails when the channel has no receiver
/// and otherwise returns the number of receivers, which is then positive.
#[verifier::external_body]
fn send_packet<P>(sender: &Sender<P>, packet: P) -> (receivers: Option<usize>)
    ensures
        receivers matches Some(count) ==> count > 0,
{
    match sender.send(packet) {
        Ok(count) => Some(count),
        Err(_) => None,
    }
}

/// Calls `Sender::subscribe`: a receiver of what is sent from now on.
#[verifier::external_body]
fn new_receiver<P>(sender: &Sender<P>) -> (receiver: Receiver<P>) {
    sender.subscribe()
}

/// Calls `Receiver::try_recv` and names its four outcomes. Which of them
/// comes depends on what was sent meanwhile, so nothing is claimed of it.
#[verifier::external_body]
fn try_receive<P: Clone>(receiver: &mut Receiver<P>) -> (delivery: Delivery<P>) {
    match receiver.try_recv() {
        Ok(packet) => Delivery::Packet(packet),
        Err(tokio::sync::broadcast::error::TryRecvError::Lagged(skipped)) => Delivery::Lagged(
            skipped,
        ),
        Err(tokio::sync::broadcast::error::TryRecvError::Empty) => Delivery::Empty,
        Err(tokio::sync::broadcast::error::TryRecvError::Closed) => Delivery::Closed,
    }
}

/// Looks for the subscriber's next packet without waiting, and says what
/// the subscriber's loop does with the outcome.
pub fn poll<P: Clone>(subscription: &mut Receiver<P>) -> (polled: (Delivery<P>, SubscriberAction))
    ensures
        polled.1 == polled.0.response(),
{
    let delivery = try_receive(subscription);
    let action = delivery.respond();
    (delivery, action)
}

/// The channel of one asset.
#[verifier::reject_recursive_types(P)]
pub struct HubChannel<P> {
    symbol: String,
    sender: Sender<P>,
}

/// The channels of all assets that were configured or asked for.
#[verifier::reject_recursive_types(P)]
pub struct Hub<P> {
    channels: Vec<HubChannel<P>>,
}

impl<P> View for Hub<P> {
    type V = Seq<Seq<char>>;

    /// The symbols that have a channel, in the order in which the channels
    /// were created.
    closed spec fn view(&self) -> Seq<Seq<char>> {
        self.channels@.map_values(|channel: HubChannel<P>| channel.symbol@)
    }
}

impl<P> Hub<P> {
    #[verifier::type_invariant]
    spec fn one_channel_per_symbol(&self) -> bool {
        forall|i: int, j: int|
            0 <= i < j < self.channels@.len() ==> self.channels@[i].symbol@
                != self.channels@[j].symbol@
    }
}

impl<P: Clone> Hub<P> {
    /// A hub without channels.
    pub fn new() -> (hub: Self)
        ensures
            hub@ == Seq::<Seq<char>>::empty(),
    {
        let hub = Hub { channels: Vec::new() };
        assert(hub@ =~= Seq::<Seq<char>>::empty());
        hub
    }

    /// The place of the channel of `symbol`, if it has one.
    pub fn find(&self, symbol: &str) -> (place: Option<usize>)
        ensures
            match place {
                Some(index) => index < self@.len() && self@[index as int] == symbol@,
                None => !self@.contains(symbol@),
            },
    {
        let wanted = String::from_str(symbol);
        let mut index: usize = 0;
        while index < self.channels.len()
            invariant
                index <= self.channels@.len(),
                wanted@ == symbol@,
                forall|k: int| 0 <= k < index ==> self@[k] != symbol@,
                self@.len() == self.channels@.len(),
            decreases self.channels@.len() - index,
        {
            if self.channels[index].symbol == wanted {
                return Some(index);
            }
            index = index + 1;
        }
        None
    }

    /// Whether `symbol` has a channel.
    pub fn has_channel(&self, symbol: &str) -> (present: bool)
        ensures
            present == self@.contains(symbol@),
    {
        self.find(symbol).is_some()
    }

    /// Makes sure that `symbol` has a channel and returns its place. A
    /// symbol that has one keeps it; no symbol ever has two.
    pub fn provision(&mut self, symbol: &str) -> (place: usize)
        ensures
            old(self)@.contains(symbol@) ==> final(self)@ == old(self)@,
            !old(self)@.contains(symbol@) ==> final(self)@ == old(self)@.push(symbol@),
            place < final(self)@.len(),
            final(self)@[place as int] == symbol@,
            final(self)@.no_duplicates(),
    {
        proof {
            use_type_invariant(&*self);
        }
        assert(self@.no_duplicates());
        match self.find(symbol) {
            Some(index) => index,
            None => {
                let channel = HubChannel {
                    symbol: String::from_str(symbol),
                    sender: open_channel(HUB_CAPACITY),
                };
                let mut channels: Vec<HubChannel<P>> = Vec::new();
                std::mem::swap(&mut channels, &mut self.channels);
                let ghost before = channels@.map_values(|channel: HubChannel<P>| channel.symbol@);
                let place: usize = channels.len();
                channels.push(channel);
                assert(channels@.map_values(|channel: HubChannel<P>| channel.symbol@)
                    =~= before.push(symbol@));
                assert forall|i: int, j: int| 0 <= i < j < channels@.len() implies channels@[i].symbol@
                    != channels@[j].symbol@ by {
                    assert(before[i] == channels@[i].symbol@);
                    if j < before.len() {
                        assert(before[j] == channels@[j].symbol@);
                    }
                }
                self.channels = channels;
                place
            },
        }
    }

    /// A hub with one channel for each of `symbols`.
    pub fn with_assets(symbols: &Vec<String>) -> (hub: Self)
        ensures
            forall|symbol: Seq<char>|
                hub@.contains(symbol) <==> exists|i: int|
                    0 <= i < symbols@.len() && #[trigger] symbols@[i]@ == symbol,
            hub@.no_duplicates(),
    {
        let mut hub: Hub<P> = Hub::new();
        let mut index: usize = 0;
        while index < symbols.len()
            invariant
                index <= symbols@.len(),
                hub@.no_duplicates(),
                forall|symbol: Seq<char>|
                    hub@.contains(symbol) <==> exists|i: int|
                        0 <= i < index && #[trigger] symbols@[i]@ == symbol,
            decreases symbols@.len() - index,
        {
            let ghost before = hub@;
            let _ = hub.provision(symbols[index].as_str());
            proof {
                let added = symbols@[index as int]@;
                assert forall|symbol: Seq<char>| hub@.contains(symbol) <==> exists|i: int|
                    0 <= i < index + 1 && #[trigger] symbols@[i]@ == symbol by {
                    if hub@.contains(symbol) {
                        if before.contains(symbol) {
                            let i = choose|i: int| 0 <= i < index && #[trigger] symbols@[i]@ == symbol;
                            assert(0 <= i < index + 1 && symbols@[i]@ == symbol);
                        } else {
                            let k = choose|k: int| 0 <= k < hub@.len() && hub@[k] == symbol;
                            assert(symbol == added);
                            assert(symbols@[index as int]@ == symbol);
                        }
                    }
                    if exists|i: int| 0 <= i < index + 1 && #[trigger] symbols@[i]@ == symbol {
                        let i = choose|i: int| 0 <= i < index + 1 && #[trigger] symbols@[i]@ == symbol;
                        if i < index {
                            assert(before.contains(symbol));
                            let k = choose|k: int| 0 <= k < before.len() && before[k] == symbol;
                            assert(hub@[k] == symbol);
                        }
                    }
                }
            }
            index = index + 1;
        }
        hub
    }

    /// Subscribes to the packets of `symbol` that are published from now
    /// on. The channel is created if the symbol had none.
    pub fn subscribe(&mut self, symbol: &str) -> (subscription: Receiver<P>)
        ensures
            old(self)@.contains(symbol@) ==> final(self)@ == old(self)@,
            !old(self)@.contains(symbol@) ==> final(self)@ == old(self)@.push(symbol@),
            final(self)@.contains(symbol@),
    {
        let place = self.provision(symbol);
        new_receiver(&self.channels[place].sender)
    }

    /// Publishes `packet` to the subscribers of `symbol`. Without a
    /// channel, and without subscribers, nothing happens; the publisher
    /// never waits.
    pub fn publish(&self, symbol: &str, packet: P) -> (published: Published)
        ensures
            published == Published::NoChannel <==> !self@.contains(symbol@),
            published matches Published::Delivered(count) ==> count > 0,
    {
        match self.find(symbol) {
            None => Published::NoChannel,
            Some(index) => published_as(send_packet(&self.channels[index].sender, packet)),
        }
    }
}

/// What a send that reached this many receivers, or none, counts as.
pub fn published_as(receivers: Option<usize>) -> (published: Published)
    ensures
        published == (match receivers {
            Some(count) => Published::Delivered(count),
            None => Published::NoSubscribers,
        }),
{
    match receivers {
        Some(count) => Published::Delivered(count),
        None => Published::NoSubscribers,
    }
}

} // verus!
