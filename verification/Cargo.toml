[package]
name = "lanewise"
version = "0.1.0"
edition = "2021"
publish = false

[dependencies]
bytemuck = { version = "=1.25.2", features = ["must_cast", "must_cast_extra"] }
