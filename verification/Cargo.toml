[package]
name = "subscription_billing"
version = "0.1.0"
edition = "2021"
publish = false

[dependencies]
anchor-lang = "=0.29.0"
anchor-spl = "=0.29.0"
solana-security-txt = "=1.1.3"
