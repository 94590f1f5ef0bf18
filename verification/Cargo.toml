[package]
name = "meter_poll"
version = "0.1.0"
edition = "2021"
publish = false

[dependencies]
tokio = { version = "=1.54.1", features = ["macros", "rt", "time"] }
tokio-modbus = { version = "=0.5.4", default-features = false, features = ["rtu"] }
tokio-serial = { version = "=5.5.0", default-features = false }
