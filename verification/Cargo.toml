[package]
name = "shader_lower"
version = "0.1.0"
edition = "2021"
publish = false

[dependencies]
naga = "=0.19.2"
llvm-sys = { version = "=170.4.1", features = ["no-llvm-linking"] }
wgpu-hal = "=0.19.5"
wgpu-types = "=0.19.2"
raw-window-handle = "=0.6.2"
