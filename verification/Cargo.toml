[package]
name = "telemetry_chart"
version = "0.1.0"
edition = "2021"
publish = false

[dependencies]
rand = "=0.9.5"
ratatui = "*"
mousefood = "*"
embedded-graphics = "*"
mipidsi = "*"
static_cell = "*"
log = "*"
esp-idf-svc = "*"
esp-idf-sys = "*"
