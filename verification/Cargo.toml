[package]
name = "bubbaloop"
version = "0.1.0"
edition = "2021"
publish = false

[dependencies]
argh = "0.1"
dirs = "6"
env_logger = "0.11"
hostname = "0.4"
log = "0.4"
reqwest = { version = "0.12", default-features = false, features = ["json"] }
serde = { version = "1", features = ["derive"] }
serde_json = "1"
thiserror = "2"
tokio = { version = "1", features = ["full"] }
uuid = { version = "1", features = ["v4"] }
zenoh = { version = "1", default-features = false, features = ["transport_tcp"] }

[dev-dependencies]
prost = { version = "0.13", default-features = false, features = ["std"] }
