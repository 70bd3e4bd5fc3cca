[package]
name = "simul"
version = "0.1.0"
edition = "2021"

[dependencies]
clap = { version = "4", features = ["derive"] }
csv = "1"
rand = "0.8"
rand_distr = "0.4"
serde = { version = "1", features = ["derive"] }
