[package]
name = "screenlock"
version = "0.1.0"
edition = "2021"
publish = false

[dependencies]
as-raw-xcb-connection = "*"
cairo-rs = { version = "*", default-features = false, features = ["xcb"] }
cairo-sys-rs = { version = "*", default-features = false, features = ["xcb"] }
pam = "*"
xcb = { version = "*", features = ["xkb"] }
xkbcommon = { version = "*", features = ["x11"] }
