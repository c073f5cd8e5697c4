[package]
name = "rust_solar"
version = "0.1.0"
edition = "2021"
publish = false

[dependencies]
chrono = "0.4"
chrono-tz = "*"
displaydoc = "0.2"
icu_calendar = "1.5"
julian_day_converter = "*"
