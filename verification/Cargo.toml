[package]
name = "wow_net"
version = "0.1.0"
edition = "2021"
publish = false

[dependencies]
sha1 = "=0.10.7"
wow_srp = "=0.7.0"
wow_login_messages = { version = "=0.5.0", features = ["tokio"] }
wow_world_messages = { version = "=0.3.0", features = ["vanilla", "tokio"] }
tokio = { version = "=1.54.1", features = ["full"] }
tracing = "=0.1.44"
tracing-subscriber = { version = "=0.3.23", features = ["env-filter"] }
thiserror = "=2.0.21"
color-eyre = "=0.6.5"
