[package]
name = "tokio_file_watch"
version = "0.1.0"
edition = "2021"
publish = false

[dependencies]
notify = "=6.1.1"
notify-debouncer-mini = "=0.4.1"
serde = { version = "=1.0.229", features = ["derive"] }
serde_json = "=1.0.154"
thiserror = "=1.0.69"
tokio = { version = "=1.54.1", features = ["fs", "io-util", "rt", "sync", "time"] }
tracing = "=0.1.44"
trait-variant = "=0.1.3"
