[package]
name = "cemconv"
version = "0.1.0"
edition = "2021"
publish = false

[dependencies]
cem = "=0.1.0"
cgmath = "=0.16.1"
structopt = "=0.3.26"
wavefront_obj = "=11.0.0"
