[package]
name = "room_visual_ext"
version = "0.1.0"
edition = "2021"
publish = false

[dependencies]
screeps-game-api = "*"
