[package]
name = "sixtyfps_eventloop"
version = "0.1.0"
edition = "2021"
publish = false

[dependencies]
winit = { version = "0.28", default-features = false, features = ["x11"] }
euclid = "0.22"
scoped-tls-hkt = "0.1"
