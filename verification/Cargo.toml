[package]
name = "waybarx"
version = "0.1.0"
edition = "2021"
publish = false

[dependencies]
sysinfo = "*"
serde_json = "*"
hyprland = "*"
swayipc-async = "*"
futures = "*"
