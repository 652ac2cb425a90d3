[package]
name = "web_controller"
version = "0.1.0"
edition = "2021"
publish = false

[dependencies]
axum = { version = "0.8", features = ["ws"] }
crossterm = "0.28"
enigo = { version = "0.3", default-features = false, features = ["x11rb"] }
futures-util = "0.3"
qrcode = { version = "0.14", default-features = false }
ratatui = "0.29"
serde = { version = "1", features = ["derive"] }
serde_json = "1"
tokio = { version = "1", features = ["full"] }
vigem-client = "0.1"
