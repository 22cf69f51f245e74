[package]
name = "allegro_window"
version = "0.1.0"
edition = "2021"
publish = false

[dependencies]
allegro = "*"
pistoncore-window = "*"
pistoncore-input = "*"
pistoncore-event_loop = "*"
