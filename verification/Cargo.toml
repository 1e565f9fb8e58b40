[package]
name = "konsole"
version = "0.1.0"
edition = "2021"
publish = false

[dependencies]
enable-ansi-support = "*"
lazy_static = "1"
libc = "0.2"
terminal_size = "*"
termios = "0.3"
