[package]
name = "event_loop"
version = "0.1.0"
edition = "2021"
publish = false

[dependencies]
clock_ticks = "=0.1.1"
pistoncore-input = "=1.0.1"
pistoncore-window = "=1.0.0"
