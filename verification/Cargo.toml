[package]
name = "oxide_cli"
version = "0.1.0"
edition = "2021"
publish = false

[dependencies]
tabwriter = "=1.4.1"
chrono = { version = "=0.4.45", features = ["serde"] }
chrono-humanize = "=0.2.3"
version-compare = "=0.2.1"
anyhow = "=1.0.104"
atty = "=0.2.14"
clap = "=3.2.25"
dialoguer = "=0.12.0"
ansi_term = "=0.12.1"
pulldown-cmark = "=0.13.4"
pulldown-cmark-to-cmark = "=23.0.0"
reqwest = { version = "=0.12.4", default-features = false, features = ["json", "blocking"] }
serde = { version = "=1.0.229", features = ["derive"] }
serde_json = "=1.0.151"
toml = "=1.1.7"
