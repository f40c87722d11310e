[package]
name = "glyph_atlas"
version = "0.1.0"
edition = "2021"
publish = false

[dependencies]
freetype-rs = "*"
harfbuzz_rs = "*"
bytemuck = "*"
serde = { version = "*", features = ["derive"] }
