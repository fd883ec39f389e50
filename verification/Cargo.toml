[package]
name = "qqmusic-reader"
version = "1.0.0"
edition = "2021"
publish = false

[dependencies]
anyhow = "=1.0.104"
chrono = "=0.4.45"
crossterm = "=0.29.0"
ctrlc = "=3.5.2"
regex = "=1.13.1"
serde = { version = "=1.0.229", features = ["derive"] }
toml = "=0.8.23"
widestring = "=1.2.1"
winapi = { version = "=0.3.9", features = ["handleapi", "memoryapi", "minwindef", "processthreadsapi", "tlhelp32", "winnt"] }

[dev-dependencies]
clap = "=4.6.7"
