[package]
name = "chiprust_cli"
version = "0.1.0"
edition = "2021"
publish = false

[dependencies]
bimap = "0.6.3"
chiprust-emu = "0.2.1"
clap = "2.33.4"
crossterm = "0.19.0"
ctrlc = "3.1.10"
device_query = "1.1.3"
rodio = { version = "0.13.1", default-features = false }
spin_sleep = "1.0.0"
