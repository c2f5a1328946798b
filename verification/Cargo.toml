[package]
name = "elm_torture"
version = "0.1.0"
edition = "2021"
publish = false

[dependencies]
clap = "2"
log = "0.4"
replace_with = "0.1"
same-file = "1"
serde = { version = "1", features = ["derive"] }
serde_json = "1"
tempfile = "3"
which = "4"
