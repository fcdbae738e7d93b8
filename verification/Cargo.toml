[package]
name = "forgy"
version = "0.1.0"
edition = "2021"
publish = false

[dependencies]
chrono = { version = "*", features = ["serde"] }
clap = { version = "*", features = ["derive"] }
hdrhistogram = { version = "*", default-features = false }
humantime = "*"
indicatif = "*"
parking_lot = "*"
prometheus = "*"
reqwest = { version = "*", default-features = false }
serde = { version = "*", features = ["derive"] }
serde_json = "*"
snap = "*"
tokio = { version = "*", features = ["macros", "rt-multi-thread", "time"] }

[dev-dependencies]
prost = "*"
