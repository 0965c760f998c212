[package]
name = "boxgrid"
version = "0.1.0"
edition = "2021"
publish = false

[dependencies]
crossterm = "*"
termsize = "*"
signal-hook = "*"
