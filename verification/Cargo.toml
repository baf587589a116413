[package]
name = "kbd_synth_min"
version = "0.1.0"
edition = "2021"
publish = false

[dependencies]
crossbeam = "0.8"
