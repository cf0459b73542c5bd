[package]
name = "zombie_army"
version = "0.1.0"
edition = "2021"
publish = false

[dependencies]
bytemuck = { version = "1.14", features = ["derive"] }
num_enum = "0.7"
solana-program = "=1.18.26"
steel = { version = "=1.3.0", default-features = false }
thiserror = "1.0"
