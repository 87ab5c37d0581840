[package]
name = "stock_chart"
version = "0.1.0"
edition = "2021"
publish = false

[dependencies]
chrono = "=0.4.45"
plotly = "=0.8.4"
tokio = { version = "=1.53.2", features = ["macros", "rt-multi-thread"] }
yahoo_finance_api = "=2.4.0"
