[package]
name = "wox_ui_shell"
version = "0.1.0"
edition = "2021"
publish = false

[dependencies]
sysinfo = "=0.29.11"
dirs = "=7.0.0"
log = "=0.4.34"
simplelog = "=0.12.2"
time = "=0.3.55"
