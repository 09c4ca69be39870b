[package]
name = "rustarok"
version = "0.1.0"
edition = "2021"
publish = false

[dependencies]
encoding = "0.2"
sublime_fuzzy = "*"
rand = "*"
log = "0.4"
simple-logging = "*"
config = "*"
serde = { version = "1", features = ["derive"] }
nalgebra = "*"
specs = "*"
sdl2 = "*"
