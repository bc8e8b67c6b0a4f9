[package]
name = "fp_node_manager"
version = "0.1.0"
edition = "2021"
publish = false

[dependencies]
serde = { version = "1", features = ["derive"] }
serde_json = "1"
tauri = { version = "2", default-features = false }
reqwest = { version = "0.12", default-features = false, features = ["blocking", "default-tls"] }
winreg = "0.52"
