[package]
name = "file_organizer"
version = "0.1.0"
edition = "2021"
publish = false

[dependencies]
chrono = { version = "=0.4.45", default-features = false, features = ["clock", "std"] }
colored = "=3.1.1"
crossterm = "=0.29.0"
ctrlc = "=3.5.2"
dialoguer = "=0.12.0"
dirs = "=7.0.0"
indicatif = "=0.18.6"
ratatui = "=0.30.2"
rayon = "=1.12.0"
rfd = { version = "=0.17.2", default-features = false, features = ["xdg-portal"] }
serde = { version = "=1.0.229", features = ["derive"] }
serde_json = "=1.0.154"
walkdir = "=2.5.0"
