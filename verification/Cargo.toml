[package]
name = "artist_details"
version = "0.1.0"
edition = "2021"
publish = false

[dependencies]
gio = "*"
