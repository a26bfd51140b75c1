[package]
name = "cursor_cli_wrapper"
version = "0.1.0"
edition = "2021"
publish = false

[dependencies]
strip-ansi-escapes = "*"
tokio = { version = "*", features = ["fs", "io-std", "io-util", "macros", "process", "rt-multi-thread", "signal", "time"] }
pty-process = { version = "*", features = ["async"] }
crossterm = "*"
libc = "*"
dirs = "*"
serde = { version = "*", features = ["derive"] }
toml = "*"
