[package]
name = "keychron_monitor"
version = "0.1.0"
edition = "2021"
publish = false

[dependencies]
hidapi = { version = "=2.6.7", default-features = false, features = ["linux-native-basic-udev"] }
notify-rust = "=4.18.2"
tokio = { version = "=1.54.1", features = ["rt-multi-thread", "macros", "sync", "time", "process"] }
trayicon = "=0.4.1"
webbrowser = "=1.2.5"
