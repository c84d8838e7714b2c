[package]
name = "font_cache"
version = "0.1.0"
edition = "2021"
publish = false

[dependencies]
fontdb = "=0.24.0"
swash = "=0.2.10"
peniko = "=0.1.1"
sys-locale = "=0.3.2"
parking_lot = "=0.12.5"
once_cell = "=1.21.4"
log = "=0.4.34"
