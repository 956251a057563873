[package]
name = "pw_eq_imgui"
version = "0.1.0"
edition = "2021"
publish = false

[dependencies]
anyhow = "1"
dear-imgui-glow = "*"
dear-imgui-rs = "*"
dear-imgui-winit = "*"
dear-implot = "*"
dirs = "*"
futures-executor = "0.3"
glow = "*"
glutin = "0.32"
glutin-winit = "0.5"
ksni = "0.3"
pipewire = "*"
raw-window-handle = "0.6"
strum = "*"
tokio = { version = "1", features = ["rt-multi-thread", "macros", "sync"] }
tracing = "0.1"
tracing-subscriber = "0.3"
winit = "0.30"
