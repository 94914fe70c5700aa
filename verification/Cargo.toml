[package]
name = "pompom"
version = "0.1.0"
edition = "2021"
publish = false

[dependencies]
atty = "=0.2.14"
chrono = { version = "=0.4.45", default-features = false, features = ["clock", "std"] }
clap = { version = "=4.6.7", features = ["derive"] }
clap-verbosity-flag = "=3.0.4"
dialoguer = "=0.12.0"
fast_log = "=1.7.10"
humantime = "=2.4.0"
indicatif = "=0.18.6"
log = "=0.4.34"
miette = "=7.6.0"
notify-rust = "=4.18.2"
pretty_env_logger = "=0.5.0"
termcolor = "=1.4.1"
tokio = { version = "=1.54.1", features = ["macros", "rt-multi-thread", "signal"] }
xshell = "=0.2.7"
