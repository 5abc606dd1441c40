[package]
name = "cbr_client"
version = "0.1.1"
edition = "2021"
publish = false

[dependencies]
time = { version = "0.3", features = ["macros", "parsing", "formatting"] }
chrono = { version = "0.4", default-features = false, features = ["alloc"] }
reqwest = { version = "0.12", default-features = false, features = ["blocking"] }
serde = { version = "1", features = ["derive"] }
serde_json = "1"
thiserror = "2"
