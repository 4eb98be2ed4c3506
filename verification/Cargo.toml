[package]
name = "winit_x11"
version = "0.1.0"
edition = "2021"
publish = false

[dependencies]
bytemuck = "1"
dpi = "0.1"
raw-window-handle = "0.6"
rustix = { version = "1", features = ["process", "system"] }
smithay-client-toolkit = { version = "*", default-features = false }
x11rb = { version = "0.13", features = ["randr", "shape", "sync", "xfixes", "xinput"] }
