[package]
name = "tablet_host"
version = "0.1.0"
edition = "2021"
publish = false

[dependencies]
bitflags = "1.3"
clap = { version = "4", features = ["derive"] }
x11rb = { version = "0.13", features = ["xinput"] }
