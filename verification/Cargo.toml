[package]
name = "forward_dll"
version = "0.1.0"
edition = "2021"
publish = false

[dependencies]
implib = "0.3"
object = "0.32"
quote = "1"
syn = "2"
windows-sys = { version = "0.48", features = ["Win32_Foundation", "Win32_System_LibraryLoader"] }
