use alphavantage::historical::HistoricalData;
use alphavantage::historical::HistoricalMetaData;
use alphavantage::historical::HistoricalPrice;

#[test]
fn historical_data_round_trips_all_fields() {
    let meta = HistoricalMetaData::new(
        String::from("Intraday (15min) open, high, low, close prices and volume"),
        String::from("AAPL"),
        String::from("2024-05-17 16:00:00"),
        String::from("15min"),
        String::from("Compact"),
        String::from("US/Eastern"),
    );
    let open = 189.51_f64;
    let high = 190.12_f64;
    let low = 189.02_f64;
    let close = 189.87_f64;
    let price = HistoricalPrice::new(
        1_715_961_600,
        open.to_bits(),
        high.to_bits(),
        low.to_bits(),
        close.to_bits(),
        1_204_551,
    );
    let data = HistoricalData::new(meta, vec![price]);

    assert_eq!(
        data.meta_data.information,
        "Intraday (15min) open, high, low, close prices and volume"
    );
    assert_eq!(data.meta_data.symbol, "AAPL");
    assert_eq!(data.meta_data.last_refreshed, "2024-05-17 16:00:00");
    assert_eq!(data.meta_data.interval, "15min");
    assert_eq!(data.meta_data.output_size, "Compact");
    assert_eq!(data.meta_data.time_zone, "US/Eastern");

    assert_eq!(data.time_series.len(), 1);
    let sample = &data.time_series[0];
    assert_eq!(sample.time, 1_715_961_600);
    assert_eq!(f64::from_bits(sample.open), 189.51);
    assert_eq!(f64::from_bits(sample.high), 190.12);
    assert_eq!(f64::from_bits(sample.low), 189.02);
    assert_eq!(f64::from_bits(sample.close), 189.87);
    assert_eq!(sample.volume, 1_204_551);
}

#[test]
fn empty_time_series_round_trips() {
    let meta = HistoricalMetaData::new(
        String::from(""),
        String::from(""),
        String::from(""),
        String::from(""),
        String::from(""),
        String::from(""),
    );
    let data = HistoricalData::new(meta, Vec::new());
    assert_eq!(data.meta_data.symbol, "");
    assert!(data.time_series.is_empty());
}
