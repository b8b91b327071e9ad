[package]
name = "card_battle_core"
version = "0.1.0"
edition = "2021"
publish = false

[dependencies]
async-trait = "*"
lazy_static = "*"
serde = { version = "*", features = ["derive"] }
tokio = { version = "*", features = ["macros", "rt-multi-thread", "sync"] }
