[package]
name = "rudo"
version = "0.1.0"
edition = "2021"
publish = false

[dependencies]
getopts = "0.2"
libc = "0.2"
rpassword = "*"
serde = { version = "1", features = ["derive"] }
serde_derive = "1"
serde_json = "1"
termion = "*"
time = "0.1"
users = "0.11"
which = "*"
