[package]
name = "vmm_devices"
version = "0.1.0"
edition = "2021"
publish = false

[dependencies]
anyhow = "=1.0.104"
argh = "0.1"
libc = "=0.2.191"
log = "=0.4.34"
once_cell = "1"
serde = { version = "=1.0.229", features = ["derive"] }
serde_json = "=1.0.154"
thiserror = "=1.0.69"
winapi = { version = "0.3", features = ["handleapi", "minwindef", "processthreadsapi", "synchapi", "winnt"] }
