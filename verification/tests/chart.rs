use stock_chart::chart::chart_title;
use stock_chart::chart::convert_quotes_to_candlestick_data;
use stock_chart::chart::output_file_name;
use stock_chart::chart::prepare_chart_data;
use stock_chart::quotes::QuoteRecord;

fn bar(timestamp: i64, open: i64, high: i64, low: i64, close: i64) -> QuoteRecord {
    QuoteRecord { timestamp, open, high, low, close }
}

#[test]
fn title_names_ticker_and_window() {
    assert_eq!(
        chart_title(&"AAPL".to_string()),
        "Candlestick Chart for AAPL (Last 6 Months)"
    );
}

#[test]
fn output_path_derives_from_ticker() {
    assert_eq!(output_file_name(&"AAPL".to_string()), "AAPL_stock_chart.html");
    assert_eq!(output_file_name(&"MSFT".to_string()), "MSFT_stock_chart.html");
}

#[test]
fn conversion_builds_parallel_columns() {
    let quotes = vec![bar(0, 10, 12, 9, 11), bar(1700000000, 11, 15, 10, 14)];
    let data = convert_quotes_to_candlestick_data(&quotes).unwrap();
    assert_eq!(data.dates, vec!["1970-01-01".to_string(), "2023-11-14".to_string()]);
    assert_eq!(data.opens, vec![10, 11]);
    assert_eq!(data.highs, vec![12, 15]);
    assert_eq!(data.lows, vec![9, 10]);
    assert_eq!(data.closes, vec![11, 14]);
}

#[test]
fn invalid_timestamp_stops_the_whole_conversion() {
    let quotes = vec![bar(0, 10, 12, 9, 11), bar(i64::MAX, 11, 15, 10, 14)];
    let err = convert_quotes_to_candlestick_data(&quotes).unwrap_err();
    assert_eq!(err.timestamp, i64::MAX);
}

#[test]
fn empty_series_converts_to_empty_columns() {
    let data = convert_quotes_to_candlestick_data(&Vec::new()).unwrap();
    assert!(data.dates.is_empty());
    assert!(data.opens.is_empty());
    assert!(data.highs.is_empty());
    assert!(data.lows.is_empty());
    assert!(data.closes.is_empty());
}

#[test]
fn empty_series_prepares_an_empty_chart_without_error() {
    let d = prepare_chart_data(&"AAPL".to_string(), &Vec::new()).unwrap();
    assert_eq!(d.title, "Candlestick Chart for AAPL (Last 6 Months)");
    assert!(d.series.dates.is_empty());
    assert!(d.volatile_dates.is_empty());
    assert!(d.volatile_closes.is_empty());
}

#[test]
fn prepared_chart_overlays_exactly_the_volatile_days() {
    // Day 1: ratio 0.01; Day 2: ratio 0.05; Day 3: ratio 0.
    let quotes = vec![
        bar(0, 100, 101, 100, 100),
        bar(86400, 100, 105, 100, 100),
        bar(172800, 100, 100, 100, 100),
    ];
    let d = prepare_chart_data(&"TEST".to_string(), &quotes).unwrap();
    assert_eq!(d.series.dates.len(), 3);
    assert_eq!(d.volatile_dates, vec!["1970-01-02".to_string()]);
    assert_eq!(d.volatile_opens, vec![0]);
    assert_eq!(d.volatile_highs, vec![105]);
    assert_eq!(d.volatile_lows, vec![100]);
    assert_eq!(d.volatile_closes, vec![100]);
}

fn render_document(quotes: &Vec<QuoteRecord>) -> String {
    let d = prepare_chart_data(&"REPRO".to_string(), quotes).unwrap();
    let to_price = |v: &i64| *v as f64 / 10000.0;
    let opens: Vec<f64> = d.series.opens.iter().map(to_price).collect();
    let highs: Vec<f64> = d.series.highs.iter().map(to_price).collect();
    let lows: Vec<f64> = d.series.lows.iter().map(to_price).collect();
    let closes: Vec<f64> = d.series.closes.iter().map(to_price).collect();
    let v_closes: Vec<f64> = d.volatile_closes.iter().map(to_price).collect();

    let candlestick = plotly::Candlestick::new(d.series.dates.clone(), opens, highs, lows, closes)
        .name("Daily Prices");
    let volatile_trace = plotly::Scatter::new(d.volatile_dates.clone(), v_closes)
        .mode(plotly::common::Mode::Markers)
        .marker(plotly::common::Marker::new().size(10).color("#1f77b4"))
        .name("Volatile Days");

    let mut plot = plotly::Plot::new();
    plot.add_trace(Box::new(candlestick));
    plot.add_trace(volatile_trace);
    plot.set_layout(
        plotly::Layout::new()
            .title(plotly::common::Title::new(&d.title))
            .x_axis(plotly::layout::Axis::new().title(plotly::common::Title::new("Date")))
            .y_axis(plotly::layout::Axis::new().title(plotly::common::Title::new("Price ($USD)")))
            .height(900),
    );
    plot.to_html()
}

#[test]
fn rendering_twice_is_byte_identical() {
    let quotes = vec![
        bar(0, 1000000, 1010000, 1000000, 1000000),
        bar(86400, 1000000, 1050000, 1000000, 1000000),
    ];
    let first = render_document(&quotes);
    let second = render_document(&quotes);
    assert_eq!(first.as_bytes(), second.as_bytes());
    assert!(first.contains("Candlestick Chart for REPRO (Last 6 Months)"));
}

#[test]
fn empty_series_renders_a_document_without_error() {
    let rendered = render_document(&Vec::new());
    assert!(rendered.contains("Candlestick Chart for REPRO (Last 6 Months)"));
}

#[test]
fn preparing_twice_gives_identical_data() {
    let quotes = vec![bar(0, 100, 103, 99, 100), bar(86400, 100, 101, 100, 100)];
    let a = prepare_chart_data(&"TWICE".to_string(), &quotes).unwrap();
    let b = prepare_chart_data(&"TWICE".to_string(), &quotes).unwrap();
    assert_eq!(a.title, b.title);
    assert_eq!(a.series.dates, b.series.dates);
    assert_eq!(a.series.opens, b.series.opens);
    assert_eq!(a.series.highs, b.series.highs);
    assert_eq!(a.series.lows, b.series.lows);
    assert_eq!(a.series.closes, b.series.closes);
    assert_eq!(a.volatile_dates, b.volatile_dates);
    assert_eq!(a.volatile_closes, b.volatile_closes);
}
