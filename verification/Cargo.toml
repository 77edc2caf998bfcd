[package]
name = "anchor_kit"
version = "0.1.0"
edition = "2021"
publish = false

[dependencies]
anchor-lang = "0.31.1"
anchor-spl = "0.31.1"
borsh = { version = "1.5", features = ["derive"] }
chrono = "0.4"
ephemeral-vrf-sdk = "*"
tuktuk-program = "*"
