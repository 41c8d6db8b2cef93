[package]
name = "sixty_five"
version = "0.1.0"
edition = "2021"

[dependencies]
anyhow = "1"
