[package]
name = "fb_console"
version = "0.1.0"
edition = "2021"
publish = false

[dependencies]
noto-sans-mono-bitmap = { version = "=0.3.2", features = ["unicode-specials"] }
bootloader_api = "=0.11.17"
x86_64 = "=0.14.13"
spin = "=0.12.3"
lazy_static = "=1.5.1"
good_memory_allocator = "=0.1.7"
