[package]
name = "telemetry_generator"
version = "0.1.0"
edition = "2021"
publish = false

[dependencies]
anyhow = "1"
arrow = { version = "*", default-features = false }
chrono = "0.4"
clap = { version = "4", features = ["derive"] }
indicatif = "0.17"
influxdb2 = { version = "0.5", default-features = false, features = ["rustls"] }
num-format = "0.4"
parquet = { version = "*", default-features = false, features = ["arrow", "snap"] }
rand = "0.8"
rand_distr = "0.4"
tokio = { version = "1", features = ["macros", "rt-multi-thread"] }
tracing = "0.1"
tracing-subscriber = { version = "0.3", features = ["env-filter"] }
