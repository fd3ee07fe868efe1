[package]
name = "my_library"
version = "0.1.0"
edition = "2021"
publish = false

[dependencies]
rand = "=0.8.8"
rand_pcg = "=0.3.1"
bevy = { version = "=0.19.1", default-features = false }

[dev-dependencies]
rayon = "*"
