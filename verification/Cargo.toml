[package]
name = "objviewer"
version = "0.1.0"
edition = "2021"
publish = false

[dependencies]
anyhow = "1"
glam = "0.25"
native-dialog = "0.7"
sysinfo = { version = "0.30", default-features = false }
tobj = "4"
tracing = "0.1"
tracing-subscriber = { version = "0.3", default-features = false, features = ["fmt"] }
