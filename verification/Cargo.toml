[package]
name = "rvsrg"
version = "0.1.0"
edition = "2021"
publish = false

[dependencies]
bytemuck = { version = "*", features = ["derive"] }
egui = "*"
egui_extras = "*"
image = { version = "*", default-features = false }
log = "*"
md5 = "*"
rfd = "*"
serde = { version = "*", features = ["derive"] }
serde_json = "*"
wgpu = "*"
wgpu_text = "*"
winit = "*"
