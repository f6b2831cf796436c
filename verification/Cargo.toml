[package]
name = "e7"
version = "0.1.0"
edition = "2021"
publish = false

[dependencies]
anyhow = "1"
chrono = "0.4"
clap = { version = "4", features = ["derive"] }
csv = "1"
ctrlc = "3"
dirs = "6"
image = { version = "0.25", default-features = false, features = ["png"] }
rand = "0.9"
rayon = "1"
tracing = "0.1"
tracing-subscriber = { version = "0.3", features = ["env-filter", "chrono"] }
