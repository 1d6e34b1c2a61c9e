[package]
name = "fontdue"
version = "0.9.3"
edition = "2021"
publish = false

[dependencies]
ttf-parser = "=0.21.1"
hashbrown = "=0.15.5"
xi-unicode = "0.3"
