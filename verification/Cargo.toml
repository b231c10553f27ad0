[package]
name = "tptool"
version = "0.1.0"
edition = "2021"
publish = false

[dependencies]
async-std = "1"
cgmath = "0.18"
chrono = "0.4"
configparser = "3"
cursive = { version = "0.20", default-features = false, features = ["crossterm-backend"] }
dirs = "5"
futures = "0.3"
log = "0.4"
os_info = "3"
pasts = "0.14"
serialport = { version = "4", default-features = false }
simplelog = "0.12"
stick = "0.13"
time = "0.3"
uom = "0.36"
