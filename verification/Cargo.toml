[package]
name = "hostfetch"
version = "0.1.0"
edition = "2021"
publish = false

[dependencies]
strip-ansi-escapes = "=0.2.1"
humansize = "=2.1.3"
frequency-unit = "=0.2.5"
clap = { version = "=4.6.7", features = ["derive"] }
sysinfo = "=0.39.6"
whoami = "=2.1.3"
uptime_lib = "=0.3.1"
local-ip-address = "=0.6.13"
smbios-lib = "=0.9.4"
wgpu = "=30.0.1"
