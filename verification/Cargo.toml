[package]
name = "sol_gateway"
version = "0.1.0"
edition = "2021"
publish = false

[dependencies]
solana-sdk = "=2.1.21"
spl-token = "=6.0.0"
bs58 = "=0.5.1"
actix-web = { version = "4", default-features = false, features = ["macros"] }
serde = { version = "1", features = ["derive"] }
dotenv = "0.15"
