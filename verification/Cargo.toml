[package]
name = "wcal"
version = "0.1.0"
edition = "2021"
publish = false

[dependencies]
chrono = "0.4"
bpaf = { version = "0.9", features = ["derive"] }
dirs = "5"
num-traits = "0.2"
tabwriter = { version = "1", features = ["ansi_formatting"] }
yansi = "0.5"
