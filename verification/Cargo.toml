[package]
name = "bridge_command"
version = "0.1.0"
edition = "2021"
publish = false

[dependencies]
tauri-dotnet-bridge-host = "0.8.0"
