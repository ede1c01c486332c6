[package]
name = "lock_screen"
version = "0.1.0"
edition = "2021"
publish = false

[dependencies]
sha2 = "0.10"
hex = "0.4"
serde = { version = "1", features = ["derive"] }
serde_json = "1"
lazy_static = "1.4"
winapi = { version = "0.3", features = ["winuser", "libloaderapi", "processthreadsapi", "debugapi", "winreg", "minwindef", "windef"] }
