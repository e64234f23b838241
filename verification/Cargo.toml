[package]
name = "rustshot"
version = "0.1.0"
edition = "2021"
publish = false

[dependencies]
image = { version = "=0.25.10", default-features = false, features = ["png"] }
imageproc = { version = "=0.25.1", default-features = false }
ab_glyph = "=0.2.32"
tiny-skia = "=0.11.4"
x11rb = { version = "=0.13.2", features = ["randr", "xfixes", "shm", "image"] }
libc = "=0.2.191"
arboard = "=3.7.0"
anyhow = "=1.0.104"
thiserror = "=2.0.21"
tokio = { version = "=1.54.1", features = ["rt", "time", "signal", "sync", "macros"] }
zbus = "=5.19.0"
ksni = "=0.3.7"
crossbeam-channel = "=0.5.17"
tracing = "=0.1.44"
serde = { version = "=1.0.229", features = ["derive"] }
toml = "=0.8.23"
chrono = "=0.4.45"
dirs = "=6.0.0"
