[package]
name = "password_manager"
version = "0.1.0"
edition = "2021"
publish = false

[dependencies]
rand = "0.8"
ratatui = "0.26"
crossterm = "0.27"
clipboard-rs = "0.2"
color-eyre = "0.6"
