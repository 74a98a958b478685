[package]
name = "flow_aggregator"
version = "0.1.0"
edition = "2021"
publish = false

[dependencies]
anyhow = "=1.0.104"
chrono = "=0.4.45"
cidr-utils = "=0.5.11"
clap = { version = "=4.6.7", features = ["derive", "env"] }
futures = "=0.3.34"
influxdb2 = "=0.5.2"
prost = "=0.14.4"
rdkafka = "=0.39.0"
serde = { version = "=1.0.229", features = ["derive"] }
size_format = "=1.0.2"
tokio = { version = "=1.54.1", features = ["macros", "rt-multi-thread", "time"] }
tracing = "=0.1.44"
tracing-subscriber = { version = "=0.3.23", features = ["env-filter"] }
