[package]
name = "trombone"
version = "0.1.0"
edition = "2021"
publish = false

[dependencies]
libc = "=0.2.191"
alsa = "=0.9.1"
windows = { version = "0.58", features = ["Win32_Foundation", "Win32_Media_Audio", "Win32_Media_Multimedia", "Win32_System_Com", "Win32_System_Threading"] }
