[package]
name = "gnome_mcp"
version = "0.1.0"
edition = "2021"
publish = false

[dependencies]
anyhow = "=1.0.104"
ashpd = { version = "=0.13.13", features = ["screenshot"] }
serde_json = "=1.0.154"
zbus = "=5.19.0"
