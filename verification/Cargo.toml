[package]
name = "oxiclean"
version = "1.8.0"
edition = "2021"
publish = false

[dependencies]
clap = { version = "4", features = ["derive"] }
clap_complete = "4"
colored = "3"
serde = { version = "1", features = ["derive"] }
ureq = { version = "3", features = ["json"] }

[dev-dependencies]
serde_json = "1"
