[package]
name = "arbitrage"
version = "0.1.0"
edition = "2021"
publish = false

[dependencies]
rust_decimal = "=1.43.0"
stopwatch = "=0.0.7"
chrono = "=0.4.45"
openlimits = "=0.1.21"
tokio = { version = "=1.54.1", features = ["full"] }
reader = "=0.1.4"
