[package]
name = "fyla"
version = "0.1.0"
edition = "2021"
publish = false

[dependencies]
anyhow = "1"
base64 = "0.22"
calamine = "*"
chrono = "0.4"
dirs = "*"
futures-util = "0.3"
kamadak-exif = "*"
libc = "0.2"
notify = "*"
notify-debouncer-full = "*"
pdf-extract = "*"
reqwest = { version = "0.12", default-features = false, features = ["json", "stream"] }
serde = { version = "1", features = ["derive"] }
serde_json = "1"
tokio = { version = "1", features = ["fs", "time", "rt"] }
zip = { version = "*", default-features = false, features = ["deflate"] }
