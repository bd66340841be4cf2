[package]
name = "system_interface"
version = "0.1.0"
edition = "2021"
publish = false

[dependencies]
rustix = { version = "*", features = ["fs", "termios", "net"] }

[dev-dependencies]
tempfile = "*"
atty = "*"
socket2 = "*"
