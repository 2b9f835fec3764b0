[package]
name = "keypulse"
version = "0.1.0"
edition = "2021"
publish = false

[dependencies]
clap = { version = "=4.6.7", features = ["derive"] }
evdev = { version = "=0.13.2", features = ["tokio", "stream-trait"] }
inotify = "=0.11.5"
tokio = { version = "=1.53.2", features = ["macros", "rt-multi-thread", "signal", "time"] }
tokio-stream = "=0.1.19"
tokio-util = { version = "=0.7.19", features = ["rt"] }
