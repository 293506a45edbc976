[package]
name = "egui_gpu_plot"
version = "0.1.0"
edition = "2021"
publish = false

[dependencies]
egui-wgpu = "*"
egui = "*"
egui_plot = "*"
bytemuck = { version = "*", features = ["derive"] }
