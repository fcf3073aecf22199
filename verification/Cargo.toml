[package]
name = "playback_core"
version = "0.1.0"
edition = "2021"
publish = false

[dependencies]
cpal = "*"
crossterm = "*"
single-instance = "*"
symphonia = "*"
