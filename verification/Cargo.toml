[package]
name = "prisma_core"
version = "0.1.0"
edition = "2021"
publish = false

[dependencies]
chrono = "=0.4.45"
cuid = "=2.0.4"
itertools = "=0.15.0"
futures = "=0.3.34"
once_cell = "=1.21.4"
quaint = { version = "=0.1.13", default-features = false, features = ["pooled", "sqlite", "mysql", "chrono-0_4", "json-1"] }
serde = { version = "=1.0.229", features = ["derive"] }
serde_json = "=1.0.154"
tracing = "=0.1.44"
tracing-log = "=0.2.0"
tracing-subscriber = { version = "=0.3.23", features = ["env-filter"] }
url = "=2.5.8"
