[package]
name = "bike_bt"
version = "0.1.0"
edition = "2021"
publish = false

[dependencies]
bluer = { version = "0.17", features = ["bluetoothd"] }
futures = "0.3"
relm4 = { version = "0.9", features = ["libadwaita"] }
