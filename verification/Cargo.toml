[package]
name = "translate_tool"
version = "0.1.0"
edition = "2021"
publish = false

[dependencies]
arboard = "3"
directories = "*"
enigo = "*"
global-hotkey = "*"
open = "5"
reqwest = { version = "0.12", features = ["blocking", "json"] }
serde_json = "1"
tray-icon = "*"
winit = "0.30"
