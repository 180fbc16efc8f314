[package]
name = "hyoka"
version = "0.1.0"
edition = "2021"
publish = false

[dependencies]
ahash = "=0.8.12"
arrayvec = "=0.7.8"
compio = { version = "=0.19.2", features = ["net", "io"] }
freedesktop-icons = "=0.4.0"
futures = "=0.3.34"
iced = { version = "=0.14.0", default-features = false, features = ["tiny-skia", "svg", "image-without-codecs", "x11", "thread-pool"] }
iced_core = "=0.14.0"
iced_tiny_skia = { version = "=0.14.1", features = ["image", "svg"] }
lru = "=0.19.0"
pipewire = "=0.10.1"
png = "=0.18.1"
rustc-hash = "=2.1.3"
rustix = { version = "=1.1.6", features = ["fs", "mm", "net"] }
tracing = "=0.1.44"
usvg = "=0.45.1"
