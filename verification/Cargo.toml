[package]
name = "bibnorm"
version = "0.1.0"
edition = "2021"
publish = false

[dependencies]
biblatex = "*"
clap = { version = "*", features = ["derive"] }
minijinja = "*"
serde = { version = "*", features = ["derive"] }
