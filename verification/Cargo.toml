[package]
name = "e6502"
version = "0.1.0"
edition = "2021"
publish = false

[dependencies]
clap = { version = "4", features = ["derive"] }
console = "0.15"
either = "1"
rustyline = "14"
