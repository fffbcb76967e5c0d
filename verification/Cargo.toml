[package]
name = "waveform"
version = "0.1.0"
edition = "2021"
publish = false

[dependencies]
rand = "=0.8.8"
log = "=0.4.34"
env_logger = "=0.10.2"
error-iter = "0.4"
pixels = "=0.13.0"
winit = "=0.28.7"
winit_input_helper = "=0.14.1"
