[package]
name = "raw_items"
version = "0.1.0"
edition = "2021"
publish = false
