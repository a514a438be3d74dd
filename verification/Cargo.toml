[package]
name = "portfolio"
version = "0.1.0"
edition = "2021"
publish = false

[dependencies]
bytemuck = { version = "1", features = ["derive"] }
eframe = { version = "0.23", default-features = false, features = ["wgpu", "default_fonts"] }
nalgebra-glm = "0.18"
tokio = { version = "1", features = ["rt-multi-thread"] }
wasm-bindgen-futures = "0.4"
wgpu = "0.17"
winit = "0.28"
