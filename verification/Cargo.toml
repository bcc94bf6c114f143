[package]
name = "data_payload"
version = "0.1.0"
edition = "2021"
publish = false

[dependencies]
yoke = "0.7"
stable_deref_trait = "1.2"
