[package]
name = "power_bias"
version = "0.1.0"
edition = "2021"
publish = false

[dependencies]
fern = { version = "*", features = ["colored"] }
futures = "*"
humantime = "*"
log = "*"
tokio = { version = "*", features = ["rt", "signal"] }
upower_dbus = "*"
zbus = "=3.15.2"
