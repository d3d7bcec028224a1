[package]
name = "stakpak_interactive"
version = "0.1.0"
edition = "2021"
publish = false

[dependencies]
log = "0.4"
ratatui = { version = "0.29", default-features = false }
reqwest = { version = "0.12", default-features = false, features = ["json"] }
serde = { version = "1", features = ["derive"] }
serde_json = "1"
tokio = { version = "1", features = ["macros", "rt", "rt-multi-thread", "sync", "time"] }
uuid = { version = "1", features = ["v4"] }
