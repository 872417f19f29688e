[package]
name = "waterfall"
version = "0.1.0"
edition = "2021"
publish = false

[dependencies]
clap = { version = "4", features = ["derive"] }
glow = "0.11"
glutin = "0.28"
num = "0.4"
rusb = "0.9"
rustfft = "6"
soapysdr = "*"
