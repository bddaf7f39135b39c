[package]
name = "tile_editor"
version = "0.1.0"
edition = "2021"
publish = false

[dependencies]
ggez = "0.5"
gfx_core = "0.9"
gfx_device_gl = "0.16"
image = "0.22"
imgui = "0.3"
imgui-gfx-renderer = "0.3"
