//! Picking the latest usable datapoint out of a chart response.
//!
//! A response lists timestamps and, beside them, closing prices and
//! volumes that may be missing at any index. The datapoint to emit is the
//! one at the greatest index at which a timestamp, a closing price and a
//! volume are all present.

use vstd::prelude::*;

verus! {

/// The quote columns of a chart entry.
#[derive(Debug, Clone)]
pub struct QuoteBlock<T> {
    pub close: Vec<Option<T>>,
    pub volume: Vec<Option<T>>,
}

/// One result of a chart response: its timestamps, in seconds since the
/// Unix epoch, and its quote blocks.
#[derive(Debug, Clone)]
pub struct ChartEntry<T> {
    pub timestamp: Vec<i64>,
    pub quote: Vec<QuoteBlock<T>>,
}

/// A datapoint with all three fields present.
#[derive(Debug, Clone, Copy)]
pub struct ChartPoint<T> {
    pub timestamp: i64,
    pub price: T,
    pub volume: T,
}

/// Why a chart response yields no datapoint.
#[derive(Debug, Clone, Copy, PartialEq, Eq, Structural)]
pub enum ChartError {
    /// The response holds no result.
    EmptyResult,
    /// The first result holds no quote block.
    MissingQuote,
    /// No index has both a closing price and a volume.
    NoDataPoints,
}

impl ChartError {
    /// The wording of the failure.
    pub open spec fn wording(self) -> Seq<char> {
        match self {
            ChartError::EmptyResult => "empty chart result"@,
            ChartError::MissingQuote => "missing quote block"@,
            ChartError::NoDataPoints => "no data points"@,
        }
    }

    pub fn message(&self) -> (message: &'static str)
        ensures
            message@ == self.wording(),
    {
        match self {
            ChartError::EmptyResult => "empty chart result",
            ChartError::MissingQuote => "missing quote block",
            ChartError::NoDataPoints => "no data points",
        }
    }
}

/// Index `i` has a timestamp, a closing price and a volume.
pub open spec fn complete_at<T>(
    timestamps: Seq<i64>,
    close: Seq<Option<T>>,
    volume: Seq<Option<T>>,
    i: int,
) -> bool {
    &&& 0 <= i < timestamps.len()
    &&& i < close.len()
    &&& i < volume.len()
    &&& close[i] is Some
    &&& volume[i] is Some
}

/// Index `i` is complete and no later index is.
pub open spec fn latest_complete<T>(
    timestamps: Seq<i64>,
    close: Seq<Option<T>>,
    volume: Seq<Option<T>>,
    i: int,
) -> bool {
    &&& complete_at(timestamps, close, volume, i)
    &&& forall|j: int| i < j < timestamps.len() ==> !complete_at(timestamps, close, volume, j)
}

/// The datapoint at a complete index.
pub open spec fn point_at<T>(
    timestamps: Seq<i64>,
    close: Seq<Option<T>>,
    volume: Seq<Option<T>>,
    i: int,
) -> ChartPoint<T> {
    ChartPoint { timestamp: timestamps[i], price: close[i].unwrap(), volume: volume[i].unwrap() }
}

/// At most one index is the latest complete one.
pub proof fn latest_complete_is_unique<T>(
    timestamps: Seq<i64>,
    close: Seq<Option<T>>,
    volume: Seq<Option<T>>,
    i: int,
    j: int,
)
    requires
        latest_complete(timestamps, close, volume, i),
        latest_complete(timestamps, close, volume, j),
    ensures
        i == j,
{
}

/// The greatest complete index, scanning from the newest timestamp back.
pub fn latest_complete_index<T>(
    timestamps: &Vec<i64>,
    close: &Vec<Option<T>>,
    volume: &Vec<Option<T>>,
) -> (found: Option<usize>)
    ensures
        match found {
            Some(i) => latest_complete(timestamps@, close@, volume@, i as int),
            None => forall|j: int| !complete_at(timestamps@, close@, volume@, j),
        },
{
    let mut index: usize = timestamps.len();
    while index > 0
        invariant
            index <= timestamps.len(),
            forall|j: int|
                index <= j < timestamps.len() ==> !complete_at(timestamps@, close@, volume@, j),
        decreases index,
    {
        index = index - 1;
        if index < close.len() && index < volume.len() {
            if close[index].is_some() && volume[index].is_some() {
                return Some(index);
            }
        }
    }
    None
}

/// The datapoint to emit for a chart response, or why there is none.
///
/// Only the first result and its first quote block are read.
pub fn latest_point<T: Copy>(result: &Vec<ChartEntry<T>>) -> (outcome: Result<
    ChartPoint<T>,
    ChartError,
>)
    ensures
        match outcome {
            Err(ChartError::EmptyResult) => result@.len() == 0,
            Err(ChartError::MissingQuote) => result@.len() > 0 && result@[0].quote@.len() == 0,
            Err(ChartError::NoDataPoints) => {
                &&& result@.len() > 0
                &&& result@[0].quote@.len() > 0
                &&& forall|j: int|
                    !complete_at(
                        result@[0].timestamp@,
                        result@[0].quote@[0].close@,
                        result@[0].quote@[0].volume@,
                        j,
                    )
            },
            Ok(point) => {
                &&& result@.len() > 0
                &&& result@[0].quote@.len() > 0
                &&& exists|i: int|
                    {
                        &&& #[trigger] latest_complete(
                            result@[0].timestamp@,
                            result@[0].quote@[0].close@,
                            result@[0].quote@[0].volume@,
                            i,
                        )
                        &&& point == point_at(
                            result@[0].timestamp@,
                            result@[0].quote@[0].close@,
                            result@[0].quote@[0].volume@,
                            i,
                        )
                    }
            },
        },
{
    if result.len() == 0 {
        return Err(ChartError::EmptyResult);
    }
    let entry = &result[0];
    if entry.quote.len() == 0 {
        return Err(ChartError::MissingQuote);
    }
    let quote = &entry.quote[0];
    match latest_complete_index(&entry.timestamp, &quote.close, &quote.volume) {
        None => Err(ChartError::NoDataPoints),
        Some(index) => {
            let point = ChartPoint {
                timestamp: entry.timestamp[index],
                price: quote.close[index].unwrap(),
                volume: quote.volume[index].unwrap(),
            };
            assert(latest_complete(
                result@[0].timestamp@,
                result@[0].quote@[0].close@,
                result@[0].quote@[0].volume@,
                index as int,
            ));
            Ok(point)
        },
    }
}

} // verus!
