//! Plain data shared by the rest of the crate.

use vstd::prelude::*;
use vstd::string::StringExecFns;

verus! {

/// The two categories of tradable asset.
#[derive(Debug, Clone, Copy, PartialEq, Eq, Hash, Structural)]
pub enum AssetCategory {
    Crypto,
    Stock,
}

impl AssetCategory {
    /// The lower-case label of the category.
    pub open spec fn label(self) -> Seq<char> {
        match self {
            AssetCategory::Crypto => "crypto"@,
            AssetCategory::Stock => "stock"@,
        }
    }

    pub fn as_str(&self) -> (label: &'static str)
        ensures
            label@ == self.label(),
    {
        match self {
            AssetCategory::Crypto => "crypto",
            AssetCategory::Stock => "stock",
        }
    }
}

/// One configured asset: what is traded and how it is shown.
#[derive(Debug, Clone)]
pub struct AssetDescriptor {
    pub symbol: String,
    pub display_name: String,
    pub category: AssetCategory,
    pub description: String,
}

impl AssetDescriptor {
    pub fn new(symbol: &str, display_name: &str, category: AssetCategory, description: &str) -> (asset:
        AssetDescriptor)
        ensures
            asset.symbol@ == symbol@,
            asset.display_name@ == display_name@,
            asset.category == category,
            asset.description@ == description@,
    {
        AssetDescriptor {
            symbol: String::from_str(symbol),
            display_name: String::from_str(display_name),
            category,
            description: String::from_str(description),
        }
    }

    /// The feed that serves this asset.
    pub fn kind(&self) -> (kind: AssetKind)
        ensures
            self.category == AssetCategory::Crypto ==> kind == (AssetKind::BinanceTrade {
                symbol: self.symbol,
            }),
            self.category == AssetCategory::Stock ==> kind == (AssetKind::YahooEquity {
                symbol: self.symbol,
            }),
    {
        AssetKind::for_category(self.category, self.symbol.clone())
    }
}

/// The assets served where nothing else is configured: three crypto
/// pairs, then three equities.
pub fn default_assets() -> (assets: Vec<AssetDescriptor>)
    ensures
        assets@.len() == 6,
        assets@[0].symbol@ == "btcusdt"@,
        assets@[1].symbol@ == "ethusdt"@,
        assets@[2].symbol@ == "solusdt"@,
        assets@[3].symbol@ == "AAPL"@,
        assets@[4].symbol@ == "TSLA"@,
        assets@[5].symbol@ == "SPY"@,
        assets@[0].display_name@ == "BTC/USDT"@,
        assets@[1].display_name@ == "ETH/USDT"@,
        assets@[2].display_name@ == "SOL/USDT"@,
        assets@[3].display_name@ == "Apple Inc."@,
        assets@[4].display_name@ == "Tesla Inc."@,
        assets@[5].display_name@ == "S&P 500 ETF"@,
        assets@[0].description@ == "Bitcoin vs Tether spot market (Binance)"@,
        assets@[1].description@ == "Ethereum vs Tether"@,
        assets@[2].description@ == "Solana vs Tether"@,
        assets@[3].description@ == "Apple equity (NASDAQ)"@,
        assets@[4].description@ == "Tesla equity (NASDAQ)"@,
        assets@[5].description@ == "SPDR S&P 500 ETF"@,
        forall|i: int|
            0 <= i < 6 ==> (#[trigger] assets@[i]).category == if i < 3 {
                AssetCategory::Crypto
            } else {
                AssetCategory::Stock
            },
{
    let mut assets: Vec<AssetDescriptor> = Vec::new();
    assets.push(
        AssetDescriptor::new(
            "btcusdt",
            "BTC/USDT",
            AssetCategory::Crypto,
            "Bitcoin vs Tether spot market (Binance)",
        ),
    );
    assets.push(
        AssetDescriptor::new("ethusdt", "ETH/USDT", AssetCategory::Crypto, "Ethereum vs Tether"),
    );
    assets.push(
        AssetDescriptor::new("solusdt", "SOL/USDT", AssetCategory::Crypto, "Solana vs Tether"),
    );
    assets.push(
        AssetDescriptor::new("AAPL", "Apple Inc.", AssetCategory::Stock, "Apple equity (NASDAQ)"),
    );
    assets.push(
        AssetDescriptor::new("TSLA", "Tesla Inc.", AssetCategory::Stock, "Tesla equity (NASDAQ)"),
    );
    assets.push(AssetDescriptor::new("SPY", "S&P 500 ETF", AssetCategory::Stock, "SPDR S&P 500 ETF"));
    assets
}

/// A caller's choice of asset, with an optional wish for a style.
#[derive(Debug, Clone)]
pub struct AssetSelection {
    pub symbol: String,
    pub category: AssetCategory,
    pub style_hint: Option<String>,
}

/// One observed trade or quote. `T` is the type of a sample value; the
/// time is counted in milliseconds since the Unix epoch.
#[derive(Debug, Clone)]
pub struct PriceTick<T> {
    pub symbol: String,
    pub price: T,
    pub volume: T,
    pub timestamp: i64,
}

impl<T: Copy> PriceTick<T> {
    /// The tick for one trade message. A price or a volume that could not
    /// be read counts as `zero`: the tick is made all the same.
    pub fn lenient(symbol: &str, price: Option<T>, volume: Option<T>, zero: T, timestamp: i64) -> (tick:
        PriceTick<T>)
        ensures
            tick.symbol@ == symbol@,
            tick.price == (match price {
                Some(read) => read,
                None => zero,
            }),
            tick.volume == (match volume {
                Some(read) => read,
                None => zero,
            }),
            tick.timestamp == timestamp,
    {
        PriceTick {
            symbol: String::from_str(symbol),
            price: match price {
                Some(read) => read,
                None => zero,
            },
            volume: match volume {
                Some(read) => read,
                None => zero,
            },
            timestamp,
        }
    }
}

/// The indicators of one asset as of one tick.
#[derive(Debug, Clone)]
pub struct MarketMetrics<T> {
    pub symbol: String,
    pub price: T,
    pub price_change_percent: T,
    pub volume: T,
    pub volume_ratio: T,
    pub rsi: T,
    pub volatility: T,
    pub tempo_bias: T,
    pub last_updated: i64,
}

/// The indicator values that are computed from the windows of one asset.
#[derive(Debug, Clone, Copy)]
pub struct DerivedIndicators<T> {
    pub price_change_percent: T,
    pub volume_ratio: T,
    pub rsi: T,
    pub volatility: T,
    pub tempo_bias: T,
}

/// A rendered stretch of audio. The samples are opaque bytes; the time is
/// counted in milliseconds since the Unix epoch.
#[derive(Debug, Clone)]
pub struct AudioChunk {
    pub samples: Vec<u8>,
    pub frames: usize,
    pub channels: u8,
    pub sample_rate: u32,
    pub timestamp: i64,
}

impl AudioChunk {
    /// A chunk of interleaved stereo audio with four bytes to a sample:
    /// one frame for every eight bytes.
    pub fn stereo(samples: Vec<u8>, sample_rate: u32, timestamp: i64) -> (chunk: AudioChunk)
        ensures
            chunk.samples@ == samples@,
            chunk.frames == samples@.len() / 8,
            chunk.channels == 2,
            chunk.sample_rate == sample_rate,
            chunk.timestamp == timestamp,
    {
        let frames: usize = samples.len() / 8;
        AudioChunk { samples, frames, channels: 2, sample_rate, timestamp }
    }

    /// The number of bytes of the payload.
    pub fn payload_bytes(&self) -> (bytes: usize)
        ensures
            bytes == self.samples@.len(),
    {
        self.samples.len()
    }
}

impl<T: Copy> MarketMetrics<T> {
    /// A copy of the snapshot.
    pub fn duplicate(&self) -> (copy: MarketMetrics<T>)
        ensures
            copy == *self,
    {
        MarketMetrics {
            symbol: self.symbol.clone(),
            price: self.price,
            price_change_percent: self.price_change_percent,
            volume: self.volume,
            volume_ratio: self.volume_ratio,
            rsi: self.rsi,
            volatility: self.volatility,
            tempo_bias: self.tempo_bias,
            last_updated: self.last_updated,
        }
    }
}

/// The parameters that the renderer plays. `T` is the type of a market
/// value, `N` that of a note or of an effect level.
#[derive(Debug, Clone)]
pub struct MusicalParams<T, N> {
    pub tempo: T,
    pub melody_notes: Vec<N>,
    pub bass_note: N,
    pub harmony: HarmonyQuality,
    pub reverb_mix: N,
    pub distortion: N,
    pub volume_intensity: T,
    pub style: String,
}

/// What is published for one tick: the metrics, the parameters mapped
/// from them, and the audio rendered from those.
#[derive(Debug, Clone)]
pub struct AudioPacket<T, N> {
    pub asset: String,
    pub metrics: MarketMetrics<T>,
    pub params: MusicalParams<T, N>,
    pub chunk: AudioChunk,
}

impl<T, N> AudioPacket<T, N> {
    /// The packet of `metrics`, filed under the symbol that the metrics
    /// are for.
    pub fn new(metrics: MarketMetrics<T>, params: MusicalParams<T, N>, chunk: AudioChunk) -> (packet:
        AudioPacket<T, N>)
        ensures
            packet.asset@ == metrics.symbol@,
            packet.metrics == metrics,
            packet.params == params,
            packet.chunk == chunk,
    {
        AudioPacket { asset: metrics.symbol.clone(), metrics, params, chunk }
    }
}

/// Which upstream feed serves a symbol.
#[derive(Debug, Clone)]
pub enum AssetKind {
    BinanceTrade { symbol: String },
    YahooEquity { symbol: String },
}

impl AssetKind {
    /// The feed that serves assets of `category`.
    pub fn for_category(category: AssetCategory, symbol: String) -> (kind: AssetKind)
        ensures
            category == AssetCategory::Crypto ==> kind == (AssetKind::BinanceTrade { symbol }),
            category == AssetCategory::Stock ==> kind == (AssetKind::YahooEquity { symbol }),
    {
        match category {
            AssetCategory::Crypto => AssetKind::BinanceTrade { symbol },
            AssetCategory::Stock => AssetKind::YahooEquity { symbol },
        }
    }
}

/// The chord colour that accompanies a melody.
#[derive(Debug, Clone, Copy, PartialEq, Eq, Structural)]
pub enum HarmonyQuality {
    Major,
    Minor,
    Diminished,
    Suspended,
}

/// The query of an audio stream request: the asset asked for, if any.
#[derive(Debug, Clone)]
pub struct AudioStreamQuery {
    pub asset: Option<String>,
}

impl AudioStreamQuery {
    /// The symbol streamed when a request names none.
    pub open spec fn fallback_symbol() -> Seq<char> {
        "btcusdt"@
    }

    /// The symbol to stream: the one asked for, else the fallback.
    pub fn symbol(self) -> (symbol: String)
        ensures
            symbol@ == (match self.asset {
                Some(asset) => asset@,
                None => Self::fallback_symbol(),
            }),
    {
        match self.asset {
            Some(asset) => asset,
            None => String::from_str("btcusdt"),
        }
    }
}

} // verus!
