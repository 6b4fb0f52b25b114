[package]
name = "filez"
version = "0.1.0"
edition = "2021"
publish = false

[dependencies]
unicode-segmentation = "1"
unicode-width = "0.1"
tui = "0.19"
crossterm = "0.25"
chrono = "0.4"
log = "0.4"
env_logger = "0.9"
clap = { version = "3", features = ["cargo"] }
number_prefix = "0.4"
