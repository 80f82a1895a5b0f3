[package]
name = "shadertoy_viewer"
version = "0.1.0"
edition = "2021"
publish = false

[dependencies]
clap = "2.33"
glium = "0.25"
notify = "4.0"
