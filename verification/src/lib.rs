//! Verified core of a stock candlestick-chart tool.
//!
//! The library holds the data model and the pure logic: mapping provider
//! quotes into bars, classifying volatile days, formatting date labels and
//! assembling the arrays and strings that a chart document is built from.
//! Console input, the network fetch and the chart serialization live outside.

pub mod quotes;
pub mod dates;
pub mod volatility;
pub mod chart;
