[package]
name = "pony_renderer"
version = "0.1.0"
edition = "2021"
publish = false

[dependencies]
crossbeam-channel = "0.5"
bytes = "1"
mp4 = "0.14"
bitflags = "2"
bytemuck = { version = "1", features = ["derive"] }
glam = "*"
cgmath = "*"
rand = "0.8"
thiserror = "1"
tracing = "0.1"
ffmpeg-next = "*"
skia-safe = "*"
skribble_color = "*"
rquickjs = "*"
puffin = "*"
env_logger = "*"
enum_dispatch = "*"
