[package]
name = "gap_editor"
version = "0.1.0"
edition = "2021"
publish = false

[dependencies]
clap = { version = "4", features = ["derive"] }
fern = "0.6"
log = "0.4"
termion = "2"
