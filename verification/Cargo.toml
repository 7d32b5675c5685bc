[package]
name = "echo_buffer"
version = "0.1.0"
edition = "2021"
publish = false

[dependencies]
solana-program = "=2.1.21"
borsh = "=1.8.1"
