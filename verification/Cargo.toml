[package]
name = "kime"
version = "0.1.0"
edition = "2021"
publish = false

[dependencies]
ab_glyph = "0.2"
ahash = "0.8"
x11rb = { version = "0.13", features = ["xtest"] }
nix = { version = "0.29", features = ["signal", "fs", "process"] }
signal-hook = "0.3"
ctrlc = "3"
log = "0.4"
xdg = "*"
fontdb = "*"
serde_yaml = "0.9"
xim = "*"
