[package]
name = "server"
version = "0.1.0"
edition = "2021"
publish = false

[dependencies]
slab = "0.4"
io-uring = "0.7"
bumpalo = "3"
nix = { version = "0.29", features = ["fs"] }
clap = { version = "4", features = ["derive"] }
color-eyre = "0.6"
crossterm = "0.28"
ratatui = "0.29"
tui-input = "*"
