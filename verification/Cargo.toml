[package]
name = "color_field"
version = "0.1.0"
edition = "2021"
publish = false

[dependencies]
rand = "0.7"
ggez = "0.5"
imgui = "0.3"
imgui-gfx-renderer = "0.3"
gfx_core = "0.9"
gfx_device_gl = "0.16"
