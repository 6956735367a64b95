[package]
name = "stellarium_bridge"
version = "0.1.0"
edition = "2021"
publish = false

[dependencies]
clap = { version = "4", features = ["derive"] }
ctrlc = "3"
reqwest = { version = "0.12", default-features = false, features = ["json"] }
serde = { version = "1", features = ["derive"] }
serialport = { version = "4", default-features = false }
tokio = { version = "1", features = ["macros", "rt-multi-thread"] }
