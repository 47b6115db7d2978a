[package]
name = "screenshot_geotag"
version = "0.1.0"
edition = "2021"
publish = false

[dependencies]
notify = "*"
msfs = "*"
