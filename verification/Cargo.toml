[package]
name = "zoomer"
version = "0.1.0"
edition = "2021"
publish = false

[dependencies]
image = { version = "*", default-features = false }
clap = { version = "*", features = ["derive"] }
serde = { version = "*", features = ["derive"] }
toml = "*"
directories = "*"
merge2 = "*"
winit = "*"
softbuffer = "*"
smithay-client-toolkit = "*"
libwayshot = "*"
xcap = "*"
