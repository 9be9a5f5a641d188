[package]
name = "pbr"
version = "0.1.0"
edition = "2021"
publish = false

[dependencies]
bytemuck = { version = "=1.25.2", features = ["derive", "extern_crate_alloc"] }
cstr = "=0.2.12"
egui = "=0.16.1"
egui_sdl2_gl = "=0.16.0"
eyre = "=0.6.14"
gl = "=0.14.0"
glam = { version = "=0.20.5", features = ["bytemuck"] }
globwalk = "=0.8.1"
gltf = { version = "=1.4.1", features = ["extensions"] }
image = { version = "=0.24.9", default-features = false, features = ["hdr"] }
sdl2 = "=0.35.2"
