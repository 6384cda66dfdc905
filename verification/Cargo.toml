[package]
name = "ptyprocess"
version = "0.1.0"
edition = "2021"
publish = false

[dependencies]
nix = "0.26"
rustix = { version = "0.38", features = ["pty", "termios", "stdio", "fs", "process", "pipe", "event", "runtime", "time"] }
fork = "0.1"
exec = "0.3"
