//! The rolling state from which the indicators of one asset are derived.
//!
//! The calculator keeps three sliding windows (prices, volumes, per-tick
//! returns), the latest price and the opening price. It stores the samples
//! and hands out exactly the ranges that each indicator is computed over.

use crate::models::{DerivedIndicators, MarketMetrics, PriceTick};
use crate::window::{newest, RollingWindow};
use vstd::prelude::*;
use vstd::string::StringExecFns;

verus! {

/// What a calculator holds, as mathematical values.
pub struct IndicatorState<T> {
    pub prices: Seq<T>,
    pub volumes: Seq<T>,
    pub returns: Seq<T>,
    pub last_price: Option<T>,
    pub open_price: Option<T>,
}

/// One tick as the state sees it: its price, its volume, and its return
/// against the price before it, if the caller derived one.
pub struct Observation<T> {
    pub price: T,
    pub volume: T,
    pub tick_return: Option<T>,
}

impl<T> IndicatorState<T> {
    /// The state before any tick.
    pub open spec fn initial() -> Self {
        IndicatorState {
            prices: Seq::empty(),
            volumes: Seq::empty(),
            returns: Seq::empty(),
            last_price: None,
            open_price: None,
        }
    }

    /// The state after one more tick, with windows of limit `limit`.
    ///
    /// Price and volume enter their windows. The return enters its window
    /// only if a price came before and a return was given. The opening
    /// price is the first price ever seen and is never replaced.
    pub open spec fn after_tick(self, tick: Observation<T>, limit: nat) -> Self {
        IndicatorState {
            prices: newest(self.prices.push(tick.price), limit),
            volumes: newest(self.volumes.push(tick.volume), limit),
            returns: match (self.last_price, tick.tick_return) {
                (Some(_), Some(r)) => newest(self.returns.push(r), limit),
                _ => self.returns,
            },
            last_price: Some(tick.price),
            open_price: match self.open_price {
                Some(open) => Some(open),
                None => Some(tick.price),
            },
        }
    }

    /// The state after the ticks of `ticks`, first to last.
    pub open spec fn after_ticks(self, ticks: Seq<Observation<T>>, limit: nat) -> Self
        decreases ticks.len(),
    {
        if ticks.len() == 0 {
            self
        } else {
            self.after_ticks(ticks.drop_last(), limit).after_tick(ticks.last(), limit)
        }
    }

    /// The prices over which the relative strength index is computed: the
    /// newest `period + 1`, or none while fewer have been seen (the index
    /// is then neutral).
    pub open spec fn rsi_prices(self, period: nat) -> Option<Seq<T>> {
        if self.prices.len() < period + 1 {
            None
        } else {
            Some(newest(self.prices, period + 1))
        }
    }
}

/// The prices of a run of ticks, in order.
pub open spec fn prices_of<T>(ticks: Seq<Observation<T>>) -> Seq<T> {
    ticks.map_values(|tick: Observation<T>| tick.price)
}

/// The volumes of a run of ticks, in order.
pub open spec fn volumes_of<T>(ticks: Seq<Observation<T>>) -> Seq<T> {
    ticks.map_values(|tick: Observation<T>| tick.volume)
}

/// Whatever ticks arrive, no window outgrows the limit, and the price and
/// volume windows hold the newest `limit` prices and volumes in order of
/// arrival. After at least one tick the opening price is the price of the
/// first tick and the latest price is that of the last.
pub proof fn windows_follow_ticks<T>(ticks: Seq<Observation<T>>, limit: nat)
    ensures
        ({
            let state = IndicatorState::<T>::initial().after_ticks(ticks, limit);
            &&& state.prices == newest(prices_of(ticks), limit)
            &&& state.volumes == newest(volumes_of(ticks), limit)
            &&& state.prices.len() <= limit
            &&& state.volumes.len() <= limit
            &&& state.returns.len() <= limit
            &&& state.returns.len() < ticks.len() || ticks.len() == 0
            &&& ticks.len() > 0 ==> state.open_price == Some(ticks[0].price)
            &&& ticks.len() > 0 ==> state.last_price == Some(ticks.last().price)
            &&& ticks.len() == 0 ==> state == IndicatorState::<T>::initial()
        }),
    decreases ticks.len(),
{
    if ticks.len() > 0 {
        let front = ticks.drop_last();
        windows_follow_ticks(front, limit);
        crate::window::newest_of_push(prices_of(front), ticks.last().price, limit);
        crate::window::newest_of_push(volumes_of(front), ticks.last().volume, limit);
        assert(prices_of(front).push(ticks.last().price) =~= prices_of(ticks));
        assert(volumes_of(front).push(ticks.last().volume) =~= volumes_of(ticks));
        if front.len() > 0 {
            assert(front[0] == ticks[0]);
        }
    } else {
        assert(prices_of(ticks) =~= Seq::<T>::empty());
        assert(volumes_of(ticks) =~= Seq::<T>::empty());
    }
}

/// While fewer than `period + 1` ticks have arrived there are no prices to
/// compute the relative strength index over; from then on there are
/// exactly `period + 1`, provided the windows can hold that many.
pub proof fn rsi_prices_need_a_full_period<T>(ticks: Seq<Observation<T>>, limit: nat, period: nat)
    ensures
        ({
            let state = IndicatorState::<T>::initial().after_ticks(ticks, limit);
            &&& ticks.len() < period + 1 ==> state.rsi_prices(period) is None
            &&& ticks.len() >= period + 1 && limit >= period + 1 ==> state.rsi_prices(period)
                == Some(newest(prices_of(ticks), period + 1))
            &&& limit < period + 1 ==> state.rsi_prices(period) is None
        }),
{
    windows_follow_ticks(ticks, limit);
    let all = prices_of(ticks);
    if ticks.len() >= period + 1 && limit >= period + 1 {
        assert(newest(newest(all, limit), period + 1) =~= newest(all, period + 1));
    }
}

/// The rolling indicator state of one asset.
pub struct IndicatorCalculator<T> {
    symbol: String,
    period: usize,
    max_samples: usize,
    prices: RollingWindow<T>,
    volumes: RollingWindow<T>,
    returns: RollingWindow<T>,
    last_price: Option<T>,
    open_price: Option<T>,
}

impl<T> View for IndicatorCalculator<T> {
    type V = IndicatorState<T>;

    closed spec fn view(&self) -> IndicatorState<T> {
        IndicatorState {
            prices: self.prices@,
            volumes: self.volumes@,
            returns: self.returns@,
            last_price: self.last_price,
            open_price: self.open_price,
        }
    }
}

impl<T> IndicatorCalculator<T> {
    #[verifier::type_invariant]
    spec fn windows_share_limit(&self) -> bool {
        &&& self.prices.limit() == self.max_samples
        &&& self.volumes.limit() == self.max_samples
        &&& self.returns.limit() == self.max_samples
    }

    /// The symbol of the asset that the state belongs to.
    pub closed spec fn asset(&self) -> Seq<char> {
        self.symbol@
    }

    /// The number of price changes that the relative strength index spans.
    pub closed spec fn span(&self) -> nat {
        self.period as nat
    }

    /// The limit of each of the three windows.
    pub closed spec fn limit(&self) -> nat {
        self.max_samples as nat
    }

}

impl<T: Copy> IndicatorCalculator<T> {
    /// A calculator that has seen no tick.
    pub fn new(symbol: String, period: usize, max_samples: usize) -> (calculator: Self)
        ensures
            calculator@ == IndicatorState::<T>::initial(),
            calculator.asset() == symbol@,
            calculator.span() == period,
            calculator.limit() == max_samples,
    {
        IndicatorCalculator {
            symbol,
            period,
            max_samples,
            prices: RollingWindow::new(max_samples),
            volumes: RollingWindow::new(max_samples),
            returns: RollingWindow::new(max_samples),
            last_price: None,
            open_price: None,
        }
    }

    /// Takes in one tick. `tick_return` is the tick's return against the
    /// latest price, which the caller derives from `last_price` before the
    /// call; it is kept only if there was a latest price.
    pub fn on_tick(&mut self, tick: &PriceTick<T>, tick_return: Option<T>)
        ensures
            final(self)@ == old(self)@.after_tick(
                Observation { price: tick.price, volume: tick.volume, tick_return },
                old(self).limit(),
            ),
            final(self).asset() == old(self).asset(),
            final(self).span() == old(self).span(),
            final(self).limit() == old(self).limit(),
    {
        proof {
            use_type_invariant(&*self);
        }
        let mut prices: RollingWindow<T> = RollingWindow::new(self.max_samples);
        std::mem::swap(&mut prices, &mut self.prices);
        prices.push(tick.price);
        self.prices = prices;

        let mut volumes: RollingWindow<T> = RollingWindow::new(self.max_samples);
        std::mem::swap(&mut volumes, &mut self.volumes);
        volumes.push(tick.volume);
        self.volumes = volumes;

        if self.last_price.is_some() {
            if let Some(r) = tick_return {
                let mut window: RollingWindow<T> = RollingWindow::new(self.max_samples);
                std::mem::swap(&mut window, &mut self.returns);
                window.push(r);
                self.returns = window;
            }
        }
        self.last_price = Some(tick.price);
        if self.open_price.is_none() {
            self.open_price = Some(tick.price);
        }
    }

    pub fn symbol(&self) -> (symbol: &String)
        ensures
            symbol@ == self.asset(),
    {
        &self.symbol
    }

    pub fn period(&self) -> (period: usize)
        ensures
            period == self.span(),
    {
        self.period
    }

    pub fn max_samples(&self) -> (max_samples: usize)
        ensures
            max_samples == self.limit(),
    {
        self.max_samples
    }

    /// The price of the latest tick.
    pub fn last_price(&self) -> (price: Option<T>)
        ensures
            price == self@.last_price,
    {
        self.last_price
    }

    /// The price of the first tick.
    pub fn open_price(&self) -> (price: Option<T>)
        ensures
            price == self@.open_price,
    {
        self.open_price
    }

    /// The volume window, oldest first.
    pub fn volumes(&self) -> (volumes: Vec<T>)
        ensures
            volumes@ == self@.volumes,
            volumes@.len() <= self.limit(),
    {
        proof {
            use_type_invariant(self);
        }
        let _ = self.volumes.len();
        self.volumes.to_vec()
    }

    /// The price window, oldest first.
    pub fn prices(&self) -> (prices: Vec<T>)
        ensures
            prices@ == self@.prices,
            prices@.len() <= self.limit(),
    {
        proof {
            use_type_invariant(self);
        }
        let _ = self.prices.len();
        self.prices.to_vec()
    }

    /// The window of per-tick returns, oldest first.
    pub fn tick_returns(&self) -> (samples: Vec<T>)
        ensures
            samples@ == self@.returns,
            samples@.len() <= self.limit(),
    {
        proof {
            use_type_invariant(self);
        }
        let _ = self.returns.len();
        self.returns.to_vec()
    }

    /// The prices to compute the relative strength index over, oldest
    /// first: the newest `period + 1`, and `None` while the price window
    /// holds fewer.
    pub fn rsi_window(&self) -> (prices: Option<Vec<T>>)
        ensures
            prices is Some == self@.rsi_prices(self.span()) is Some,
            prices is Some ==> prices.unwrap()@ == self@.rsi_prices(self.span()).unwrap(),
            prices is Some ==> prices.unwrap()@.len() == self.span() + 1,
    {
        if self.prices.len() <= self.period {
            None
        } else {
            Some(self.prices.newest_samples(self.period + 1))
        }
    }

    /// The snapshot published for `tick`: it carries the calculator's
    /// symbol, the tick's price, volume and time, and the derived values
    /// as given.
    pub fn snapshot(&self, tick: &PriceTick<T>, derived: DerivedIndicators<T>) -> (metrics:
        MarketMetrics<T>)
        ensures
            metrics.symbol@ == self.asset(),
            metrics.price == tick.price,
            metrics.volume == tick.volume,
            metrics.last_updated == tick.timestamp,
            metrics.price_change_percent == derived.price_change_percent,
            metrics.volume_ratio == derived.volume_ratio,
            metrics.rsi == derived.rsi,
            metrics.volatility == derived.volatility,
            metrics.tempo_bias == derived.tempo_bias,
    {
        MarketMetrics {
            symbol: self.symbol.clone(),
            price: tick.price,
            price_change_percent: derived.price_change_percent,
            volume: tick.volume,
            volume_ratio: derived.volume_ratio,
            rsi: derived.rsi,
            volatility: derived.volatility,
            tempo_bias: derived.tempo_bias,
            last_updated: tick.timestamp,
        }
    }
}

impl<T: Copy> Default for IndicatorCalculator<T> {
    /// A calculator for an asset that is not known yet, with a period of
    /// fourteen changes and windows of 256 samples.
    fn default() -> (calculator: Self)
        ensures
            calculator@ == IndicatorState::<T>::initial(),
            calculator.asset() == "UNKNOWN"@,
            calculator.span() == 14,
            calculator.limit() == 256,
    {
        IndicatorCalculator::new(String::from_str("UNKNOWN"), 14, 256)
    }
}

} // verus!
