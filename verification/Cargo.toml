[package]
name = "tag_the_chart_program"
version = "0.1.0"
edition = "2021"
publish = false

[dependencies]
anchor-lang = "=0.29.0"
anchor-spl = "=0.29.0"
raydium-amm-v3 = { version = "=0.1.0", features = ["cpi"] }
spl-memo = "=4.0.0"
spl-token = "=4.0.0"
