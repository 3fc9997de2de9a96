//! Passive value types that model a historical price time series: one
//! metadata record plus an ordered sequence of OHLCV samples.
//!
//! These types carry caller-supplied values verbatim: construction cannot
//! fail, nothing is validated or normalised, and reading a field back
//! yields exactly the value supplied.

use vstd::prelude::*;

verus! {

/// Descriptive fields about a completed query: free-form strings, kept
/// exactly as the caller supplied them.
pub struct HistoricalMetaData {
    pub information: String,
    pub symbol: String,
    pub last_refreshed: String,
    pub interval: String,
    pub output_size: String,
    pub time_zone: String,
}

impl HistoricalMetaData {
    /// Builds a metadata record that holds the given fields verbatim.
    pub fn new(
        information: String,
        symbol: String,
        last_refreshed: String,
        interval: String,
        output_size: String,
        time_zone: String,
    ) -> (r: HistoricalMetaData)
        ensures
            r.information == information,
            r.symbol == symbol,
            r.last_refreshed == last_refreshed,
            r.interval == interval,
            r.output_size == output_size,
            r.time_zone == time_zone,
    {
        HistoricalMetaData { information, symbol, last_refreshed, interval, output_size, time_zone }
    }
}

/// One timestamped OHLCV sample.
///
/// The timestamp is the count of seconds since the Unix epoch, in UTC.
/// The four price fields hold the IEEE 754 double-precision bit pattern of
/// the sample value: the library does no arithmetic on prices, it only
/// carries them, so the bit pattern preserves the value exactly.
pub struct HistoricalPrice {
    pub time: i64,
    pub open: u64,
    pub high: u64,
    pub low: u64,
    pub close: u64,
    pub volume: i32,
}

impl HistoricalPrice {
    /// Builds a sample that holds the given fields verbatim.
    pub fn new(time: i64, open: u64, high: u64, low: u64, close: u64, volume: i32) -> (r:
        HistoricalPrice)
        ensures
            r.time == time,
            r.open == open,
            r.high == high,
            r.low == low,
            r.close == close,
            r.volume == volume,
    {
        HistoricalPrice { time, open, high, low, close, volume }
    }
}

/// One metadata record plus an ordered sequence of price samples,
/// chronological order expected but not enforced.
pub struct HistoricalData {
    pub meta_data: HistoricalMetaData,
    pub time_series: Vec<HistoricalPrice>,
}

impl HistoricalData {
    /// Builds a series that holds the given metadata and samples verbatim.
    pub fn new(meta_data: HistoricalMetaData, time_series: Vec<HistoricalPrice>) -> (r:
        HistoricalData)
        ensures
            r.meta_data == meta_data,
            r.time_series == time_series,
    {
        HistoricalData { meta_data, time_series }
    }
}

} // verus!
