[package]
name = "card_draw"
version = "0.1.0"
edition = "2021"
publish = false

[dependencies]
merlin = "=3.0.0"
rand_core = { version = "=0.6.4", features = ["getrandom"] }
schnorrkel = "=0.11.5"
sp-core = "=34.0.0"
