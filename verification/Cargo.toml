[package]
name = "arch_token_metadata"
version = "0.1.0"
edition = "2021"
publish = false

[dependencies]
arch_program = "=0.5.15"
apl-token = { version = "=0.5.15", features = ["no-entrypoint"] }
borsh = { version = "=1.8.1", features = ["derive"] }
thiserror = "=2.0.21"
num-derive = "=0.5.1"
num-traits = "=0.2.19"
anyhow = "=1.0.104"
async-trait = "=0.1.92"
