[package]
name = "stable_coin_project"
version = "0.1.0"
edition = "2021"
publish = false

[dependencies]
ink_env = "=3.4.0"
ink_lang = "=3.4.0"
ink_storage = "=3.4.0"
ink_prelude = "=3.4.0"
parity-scale-codec = { version = "=3.7.5", default-features = false, features = ["derive"] }
scale-info = { version = "=2.11.6", default-features = false, features = ["derive"] }
openbrush = { version = "=1.8.0", features = ["std", "ownable", "pausable", "access_control", "psp22", "psp34"] }
