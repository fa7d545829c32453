[package]
name = "toraniko"
version = "0.1.0"
edition = "2021"
publish = false

[dependencies]
rustc_apfloat = "=0.2.3"
const_soft_float = "=0.1.4"
chrono = "=0.4.45"
ndarray = "=0.16.1"
thiserror = "=2.0.21"
serde = { version = "=1.0.229", features = ["derive"] }
derive_more = { version = "=2.1.1", features = ["display", "from", "into"] }
polars = { version = "=0.46.0", default-features = false, features = ["lazy", "dtype-date", "rolling_window", "temporal", "fmt"] }
factors = "=0.2.1"
tokio = { version = "1", features = ["macros", "rt-multi-thread"] }
yahoo_finance_api = "4"
time = "0.3"
