[package]
name = "worms"
version = "0.1.0"
edition = "2021"
publish = false

[dependencies]
bevy = "0.7"
bevy_rapier2d = "0.14"
