[package]
name = "golemate"
version = "0.1.0"
edition = "2021"
publish = false

[dependencies]
anyhow = "=1.0.104"
env_logger = "=0.7.1"
shakmaty = "=0.16.4"
structopt = "=0.3.26"
