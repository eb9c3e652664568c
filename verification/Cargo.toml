[package]
name = "arch_info"
version = "0.1.0"
edition = "2021"
publish = false

[dependencies]
bitvec = "1"
clap = { version = "3.2", features = ["derive"] }
libc = "0.2"
thiserror = "1"

[dev-dependencies]
nom = "7"
