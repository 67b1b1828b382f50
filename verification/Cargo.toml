[package]
name = "skilltree"
version = "0.1.0"
edition = "2021"
publish = false

[dependencies]
url = "2"
serde = { version = "1", features = ["derive"] }
serde_json = "1"
image = { version = "0.24", default-features = false, features = ["png"] }
glium = "0.32"
imgui = "0.11"
imgui-glium-renderer = "0.11"
imgui-winit-support = "0.11"
winit = "0.27"
