[package]
name = "drum_machine"
version = "0.1.0"
edition = "2021"
publish = false

[dependencies]
dsp-chain = "=0.12.0"
rand = "=0.10.3"
time_calc = "=0.14.0"
