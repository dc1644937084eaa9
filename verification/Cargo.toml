[package]
name = "bluez_adapter"
version = "0.1.0"
edition = "2021"
publish = false

[dependencies]
dbus = "0.6"
futures = "0.1"
