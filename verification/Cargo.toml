[package]
name = "tablet_link"
version = "0.1.0"
edition = "2021"
publish = false

[dependencies]
anyhow = "*"
libc = "*"
thiserror = "*"
tokio = { version = "*", features = ["net", "rt-multi-thread", "macros"] }
zbus = "*"
zbus_macros = "*"
