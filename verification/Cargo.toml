[package]
name = "desplio"
version = "0.1.0"
edition = "2021"
publish = false

[dependencies]
ashpd = { version = "=0.13.13", features = ["screencast"] }
axum = { version = "=0.8.9", features = ["ws"] }
bytes = "=1.12.1"
ctrlc = "=3.5.2"
enumflags2 = "=0.7.12"
evdev = "=0.13.2"
evdi-sys = "=0.4.0"
futures-util = "0.3"
gethostname = "=1.1.0"
image = { version = "=0.25.10", default-features = false, features = ["png"] }
libc = "=0.2.191"
mdns-sd = "=0.21.7"
serde = { version = "1", features = ["derive"] }
serde_json = "1"
tokio = { version = "1", features = ["rt", "rt-multi-thread", "net", "sync", "time"] }
tracing = "0.1"
tracing-subscriber = { version = "0.3", features = ["env-filter"] }
wayland-client = "=0.31.15"
webrtc = "=0.17.2"
webrtc-media = "=0.17.2"
