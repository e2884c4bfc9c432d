[package]
name = "activity_monitor"
version = "0.1.0"
edition = "2021"
publish = false

[dependencies]
image = { version = "=0.25.10", default-features = false, features = ["png"] }
winapi = { version = "=0.3.9", features = ["handleapi", "processthreadsapi", "psapi", "shellapi", "wingdi", "winnt", "winuser", "winver", "minwindef", "ntdef", "windef"] }
