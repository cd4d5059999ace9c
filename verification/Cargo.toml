[package]
name = "ga_synth"
version = "0.1.0"
edition = "2021"
publish = false

[dependencies]
rand = "0.8"
spectrum-analyzer = "1"
wav_io = "0.1"
csv = "1"
serde = { version = "1", features = ["derive"] }
