[package]
name = "gt7_telemetry"
version = "0.1.0"
edition = "2021"
publish = false

[dependencies]
bitflags = { version = "2", features = ["serde"] }
byteorder = "1"
glium = "0.32"
imgui = "0.11"
imgui-glium-renderer = "0.11"
imgui-winit-support = "0.11"
salsa20 = "0.10"
serde = { version = "1", features = ["derive"] }
thiserror = "1"
