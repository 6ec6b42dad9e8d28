//! The state that the pipelines and the query and stream handlers share:
//! the board of latest metrics and the distribution hub, owned by one
//! value that is made once and handed to whoever needs it.

use crate::board::MetricsBoard;
use crate::hub::{Hub, Published};
use crate::models::{AudioPacket, MarketMetrics};
use tokio::sync::broadcast::Receiver;
use vstd::prelude::*;

verus! {

/// The shared registry of one service.
#[verifier::reject_recursive_types(T)]
#[verifier::reject_recursive_types(N)]
pub struct Registry<T, N> {
    board: MetricsBoard<T>,
    hub: Hub<AudioPacket<T, N>>,
}

impl<T, N> Registry<T, N> {
    /// The latest snapshot of each symbol that has one.
    pub closed spec fn metrics(&self) -> Map<Seq<char>, MarketMetrics<T>> {
        self.board@
    }

    /// The symbols that have a channel, in the order of their creation.
    pub closed spec fn channels(&self) -> Seq<Seq<char>> {
        self.hub@
    }
}

impl<T: Copy, N: Copy> Registry<T, N> {
    /// A registry with a channel for each of `symbols` and no metrics.
    pub fn new(symbols: &Vec<String>) -> (registry: Self)
        ensures
            registry.metrics() == Map::<Seq<char>, MarketMetrics<T>>::empty(),
            registry.channels().no_duplicates(),
            forall|symbol: Seq<char>|
                registry.channels().contains(symbol) <==> exists|i: int|
                    0 <= i < symbols@.len() && #[trigger] symbols@[i]@ == symbol,
    {
        Registry { board: MetricsBoard::new(), hub: Hub::with_assets(symbols) }
    }

    /// The latest snapshot of `symbol`; `None` for a symbol that is not
    /// configured or has not been observed yet.
    pub fn latest_metrics(&self, symbol: &str) -> (found: Option<MarketMetrics<T>>)
        ensures
            found == (if self.metrics().contains_key(symbol@) {
                Some(self.metrics()[symbol@])
            } else {
                None
            }),
    {
        self.board.latest_metrics(symbol)
    }

    /// Records `metrics` as the latest snapshot of its symbol.
    pub fn update_metrics(&mut self, metrics: MarketMetrics<T>)
        ensures
            final(self).metrics() == old(self).metrics().insert(metrics.symbol@, metrics),
            final(self).channels() == old(self).channels(),
    {
        self.board.update_metrics(metrics);
    }

    /// Subscribes to the packets of `symbol` that are published from now
    /// on, creating the channel if the symbol had none.
    pub fn subscribe(&mut self, symbol: &str) -> (subscription: Receiver<AudioPacket<T, N>>)
        ensures
            old(self).channels().contains(symbol@) ==> final(self).channels() == old(
                self,
            ).channels(),
            !old(self).channels().contains(symbol@) ==> final(self).channels() == old(
                self,
            ).channels().push(symbol@),
            final(self).metrics() == old(self).metrics(),
    {
        self.hub.subscribe(symbol)
    }

    /// Publishes a packet: its metrics become the latest of their symbol,
    /// and the packet goes to the subscribers of its asset, if the asset
    /// has a channel and the channel has subscribers.
    pub fn publish(&mut self, packet: AudioPacket<T, N>) -> (published: Published)
        ensures
            final(self).metrics() == old(self).metrics().insert(
                packet.metrics.symbol@,
                packet.metrics,
            ),
            final(self).channels() == old(self).channels(),
            published == Published::NoChannel <==> !old(self).channels().contains(packet.asset@),
            published matches Published::Delivered(count) ==> count > 0,
    {
        self.board.update_metrics(packet.metrics.duplicate());
        let asset = packet.asset.clone();
        self.hub.publish(asset.as_str(), packet)
    }
}

} // verus!
