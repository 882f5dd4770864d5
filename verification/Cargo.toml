[package]
name = "spotify_remote"
version = "0.1.0"
edition = "2021"
publish = false

[dependencies]
sha1 = "*"
hex = "*"
rand = "*"
anyhow = "*"
clap = { version = "*", features = ["derive", "env"] }
tokio = { version = "*", features = ["full"] }
nix = { version = "*", features = ["signal", "process"] }
serde = { version = "*", features = ["derive"] }
serde_json = "*"
reqwest = { version = "*", default-features = false, features = ["json"] }
axum = "*"
