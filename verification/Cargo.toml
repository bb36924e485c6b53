[package]
name = "socks2"
version = "0.1.0"
edition = "2021"
publish = false

[dependencies]
byteorder = "1"
libc = "0.2"
windows-sys = { version = "0.52", features = ["Win32_Foundation", "Win32_Networking_WinSock", "Win32_System_IO"] }
