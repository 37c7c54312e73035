[package]
name = "clearing_house"
version = "0.1.0"
edition = "2021"
publish = false

[dependencies]
anchor-lang = "=1.2.1"
bytemuck = { version = "1.17", features = ["derive", "min_const_generics"] }
solana-program = "=5.1.0"
spl-token = "=9.0.0"
