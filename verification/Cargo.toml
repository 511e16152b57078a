[package]
name = "tctrl"
version = "0.1.0"
edition = "2021"
publish = false

[dependencies]
rlua = "*"
tmux_interface = "*"
anyhow = "*"
clap = { version = "*", features = ["derive"] }
home = "*"
skim = "*"
