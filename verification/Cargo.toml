[package]
name = "apithing"
version = "0.1.0"
edition = "2021"
publish = false
