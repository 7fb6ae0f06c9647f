[package]
name = "terminal_size"
version = "0.1.0"
edition = "2021"
publish = false

[dependencies]
rustix = { version = "0.38", features = ["termios", "stdio"] }
winapi = { version = "0.3", features = ["handleapi", "processenv", "winbase", "wincon"] }

[dev-dependencies]
rustix = { version = "0.38", features = ["termios", "stdio", "pty", "fs", "pipe"] }
