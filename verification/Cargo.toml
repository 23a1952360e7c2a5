[package]
name = "filepath"
version = "0.1.0"
edition = "2021"
publish = false

[dependencies]
libc = "=0.2.190"
windows = { version = "=0.58.0", features = ["Win32_Foundation", "Win32_Storage_FileSystem"] }
