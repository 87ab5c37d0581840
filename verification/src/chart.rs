use vstd::prelude::*;
use vstd::string::StringExecFns;
use crate::dates::date_label_of;
use crate::dates::timestamp_in_range;
use crate::dates::timestamp_to_date_string;
use crate::quotes::QuoteRecord;
use crate::volatility::identify_volatile_days;
use crate::volatility::volatile_selection;

verus! {

/// Five parallel columns describing a series of bars: one date label and
/// four prices per bar, in series order.
#[derive(Debug)]
pub struct CandlestickArrays {
    pub dates: Vec<String>,
    pub opens: Vec<i64>,
    pub highs: Vec<i64>,
    pub lows: Vec<i64>,
    pub closes: Vec<i64>,
}

/// A bar's timestamp could not be converted to a calendar date; the whole
/// render stops rather than silently skipping the bar.
#[derive(Clone, Copy, Debug)]
pub struct DateConversionError {
    pub timestamp: i64,
}

/// Every timestamp among the first `n` bars converts to a calendar date.
pub open spec fn all_timestamps_in_range(quotes: Seq<QuoteRecord>, n: int) -> bool {
    forall|i: int| 0 <= i < n ==> timestamp_in_range((#[trigger] quotes[i]).timestamp as int)
}

/// The five columns are exactly the given series, bar by bar and in order:
/// each date label the formatted timestamp, each price copied unchanged.
pub open spec fn is_candlestick_data_of(quotes: Seq<QuoteRecord>, d: CandlestickArrays) -> bool {
    &&& d.dates@.len() == quotes.len()
    &&& d.opens@.len() == quotes.len()
    &&& d.highs@.len() == quotes.len()
    &&& d.lows@.len() == quotes.len()
    &&& d.closes@.len() == quotes.len()
    &&& forall|i: int|
        0 <= i < quotes.len()
            ==> (#[trigger] d.dates@[i])@ == date_label_of(quotes[i].timestamp as int)
    &&& forall|i: int| 0 <= i < quotes.len() ==> #[trigger] d.opens@[i] == quotes[i].open
    &&& forall|i: int| 0 <= i < quotes.len() ==> #[trigger] d.highs@[i] == quotes[i].high
    &&& forall|i: int| 0 <= i < quotes.len() ==> #[trigger] d.lows@[i] == quotes[i].low
    &&& forall|i: int| 0 <= i < quotes.len() ==> #[trigger] d.closes@[i] == quotes[i].close
}

/// Transforms the series into the five parallel columns a candlestick trace
/// is built from. Fails on the first bar whose timestamp has no calendar
/// date, reporting that timestamp; an empty series is a valid, empty result.
pub fn convert_quotes_to_candlestick_data(quotes: &Vec<QuoteRecord>) -> (r: Result<
    CandlestickArrays,
    DateConversionError,
>)
    ensures
        r is Ok <==> all_timestamps_in_range(quotes@, quotes@.len() as int),
        r matches Ok(d) ==> is_candlestick_data_of(quotes@, d),
        r matches Err(e) ==> (exists|i: int|
            0 <= i < quotes@.len() && (#[trigger] quotes@[i]).timestamp == e.timestamp
                && !timestamp_in_range(e.timestamp as int)
                && all_timestamps_in_range(quotes@, i)),
{
    let mut dates: Vec<String> = Vec::new();
    let mut opens: Vec<i64> = Vec::new();
    let mut highs: Vec<i64> = Vec::new();
    let mut lows: Vec<i64> = Vec::new();
    let mut closes: Vec<i64> = Vec::new();

    let mut i: usize = 0;
    while i < quotes.len()
        invariant
            i <= quotes@.len(),
            dates@.len() == i,
            opens@.len() == i,
            highs@.len() == i,
            lows@.len() == i,
            closes@.len() == i,
            all_timestamps_in_range(quotes@, i as int),
            forall|j: int|
                0 <= j < i ==> (#[trigger] dates@[j])@ == date_label_of(quotes@[j].timestamp as int),
            forall|j: int| 0 <= j < i ==> #[trigger] opens@[j] == quotes@[j].open,
            forall|j: int| 0 <= j < i ==> #[trigger] highs@[j] == quotes@[j].high,
            forall|j: int| 0 <= j < i ==> #[trigger] lows@[j] == quotes@[j].low,
            forall|j: int| 0 <= j < i ==> #[trigger] closes@[j] == quotes@[j].close,
        decreases quotes@.len() - i,
    {
        let q = &quotes[i];
        match timestamp_to_date_string(q.timestamp) {
            Some(label) => {
                dates.push(label);
                opens.push(q.open);
                highs.push(q.high);
                lows.push(q.low);
                closes.push(q.close);
            },
            None => {
                return Err(DateConversionError { timestamp: q.timestamp });
            },
        }
        i += 1;
    }

    Ok(CandlestickArrays { dates, opens, highs, lows, closes })
}

/// Builds the chart title naming the ticker and the fixed six-month window.
pub fn chart_title(ticker: &String) -> (r: String)
    ensures
        r@ == "Candlestick Chart for "@ + ticker@ + " (Last 6 Months)"@,
{
    let mut s: String = "Candlestick Chart for ".to_owned();
    s.append(ticker.as_str());
    s.append(" (Last 6 Months)");
    s
}

/// Derives the output path for a ticker's chart document.
pub fn output_file_name(ticker: &String) -> (r: String)
    ensures
        r@ == ticker@ + "_stock_chart.html"@,
{
    let mut s: String = ticker.clone();
    s.append("_stock_chart.html");
    s
}

/// Everything a chart document is assembled from: the title, the full
/// series columns and the volatile-day overlay columns.
pub struct ChartData {
    pub title: String,
    pub series: CandlestickArrays,
    pub volatile_dates: Vec<String>,
    pub volatile_opens: Vec<i64>,
    pub volatile_highs: Vec<i64>,
    pub volatile_lows: Vec<i64>,
    pub volatile_closes: Vec<i64>,
}

/// Computes every datum of the chart document for one ticker's series: the
/// titled, ordered candlestick columns and the volatile-day overlay. Fails
/// exactly when some bar's timestamp has no calendar date.
pub fn prepare_chart_data(ticker: &String, quotes: &Vec<QuoteRecord>) -> (r: Result<
    ChartData,
    DateConversionError,
>)
    ensures
        r is Ok <==> all_timestamps_in_range(quotes@, quotes@.len() as int),
        r matches Ok(d) ==> (d.title@ == "Candlestick Chart for "@ + ticker@
            + " (Last 6 Months)"@ && is_candlestick_data_of(quotes@, d.series)
            && volatile_selection(
            d.series.dates@,
            d.series.highs@,
            d.series.lows@,
            d.series.closes@,
            quotes@.len() as int,
            d.volatile_dates@,
            d.volatile_opens@,
            d.volatile_highs@,
            d.volatile_lows@,
            d.volatile_closes@,
        )),
        r matches Err(e) ==> (exists|i: int|
            0 <= i < quotes@.len() && (#[trigger] quotes@[i]).timestamp == e.timestamp
                && !timestamp_in_range(e.timestamp as int)
                && all_timestamps_in_range(quotes@, i)),
{
    match convert_quotes_to_candlestick_data(quotes) {
        Ok(series) => {
            let (v_dates, v_opens, v_highs, v_lows, v_closes) = identify_volatile_days(
                &series.dates,
                &series.highs,
                &series.lows,
                &series.closes,
            );
            Ok(
                ChartData {
                    title: chart_title(ticker),
                    series,
                    volatile_dates: v_dates,
                    volatile_opens: v_opens,
                    volatile_highs: v_highs,
                    volatile_lows: v_lows,
                    volatile_closes: v_closes,
                },
            )
        },
        Err(e) => Err(e),
    }
}

/// Preparing chart data is deterministic: any two successful results for
/// the same ticker and series carry the same title, the same series
/// columns and the same volatile-day overlay, so re-running the pipeline
/// on identical inputs reproduces the chart document's data exactly.
pub proof fn lemma_prepared_chart_data_deterministic(
    ticker: Seq<char>,
    quotes: Seq<QuoteRecord>,
    d1: ChartData,
    d2: ChartData,
)
    requires
        d1.title@ == "Candlestick Chart for "@ + ticker + " (Last 6 Months)"@,
        d2.title@ == "Candlestick Chart for "@ + ticker + " (Last 6 Months)"@,
        is_candlestick_data_of(quotes, d1.series),
        is_candlestick_data_of(quotes, d2.series),
        volatile_selection(
            d1.series.dates@,
            d1.series.highs@,
            d1.series.lows@,
            d1.series.closes@,
            quotes.len() as int,
            d1.volatile_dates@,
            d1.volatile_opens@,
            d1.volatile_highs@,
            d1.volatile_lows@,
            d1.volatile_closes@,
        ),
        volatile_selection(
            d2.series.dates@,
            d2.series.highs@,
            d2.series.lows@,
            d2.series.closes@,
            quotes.len() as int,
            d2.volatile_dates@,
            d2.volatile_opens@,
            d2.volatile_highs@,
            d2.volatile_lows@,
            d2.volatile_closes@,
        ),
    ensures
        d1.title@ == d2.title@,
        d1.series.opens@ == d2.series.opens@,
        d1.series.highs@ == d2.series.highs@,
        d1.series.lows@ == d2.series.lows@,
        d1.series.closes@ == d2.series.closes@,
        d1.series.dates@.len() == d2.series.dates@.len(),
        forall|i: int|
            0 <= i < quotes.len() ==> (#[trigger] d1.series.dates@[i])@ == d2.series.dates@[i]@,
        d1.volatile_opens@ == d2.volatile_opens@,
        d1.volatile_highs@ == d2.volatile_highs@,
        d1.volatile_lows@ == d2.volatile_lows@,
        d1.volatile_closes@ == d2.volatile_closes@,
        d1.volatile_dates@.len() == d2.volatile_dates@.len(),
        forall|k: int|
            0 <= k < d1.volatile_dates@.len()
                ==> (#[trigger] d1.volatile_dates@[k])@ == d2.volatile_dates@[k]@,
{
    let n = quotes.len() as int;
    assert(d1.series.opens@ =~= d2.series.opens@);
    assert(d1.series.highs@ =~= d2.series.highs@);
    assert(d1.series.lows@ =~= d2.series.lows@);
    assert(d1.series.closes@ =~= d2.series.closes@);
    let idx = crate::volatility::volatile_indices(
        d1.series.highs@,
        d1.series.lows@,
        d1.series.closes@,
        n,
    );
    crate::volatility::lemma_markers_form_subsequence(
        d1.series.highs@,
        d1.series.lows@,
        d1.series.closes@,
        n,
    );
    assert(d1.volatile_opens@ =~= d2.volatile_opens@);
    assert(d1.volatile_highs@ =~= d2.volatile_highs@);
    assert(d1.volatile_lows@ =~= d2.volatile_lows@);
    assert(d1.volatile_closes@ =~= d2.volatile_closes@);
    assert forall|k: int|
        0 <= k < d1.volatile_dates@.len() implies (#[trigger] d1.volatile_dates@[k])@
            == d2.volatile_dates@[k]@ by {
        assert(0 <= idx[k] < n);
        assert(d1.volatile_dates@[k]@ == d1.series.dates@[idx[k]]@);
        assert(d1.series.dates@[idx[k]]@ == date_label_of(quotes[idx[k]].timestamp as int));
        assert(d2.volatile_dates@[k]@ == d2.series.dates@[idx[k]]@);
    }
}

} // verus!
