[package]
name = "idek"
version = "0.1.0"
edition = "2021"
publish = false

[dependencies]
slotmap = "*"
anyhow = "*"
bytemuck = "*"
erupt = "*"
lyon = "*"
