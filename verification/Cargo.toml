[package]
name = "cat_hand"
version = "0.1.0"
edition = "2021"
publish = false

[dependencies]
sync-unsafe-cell = "0.1"
