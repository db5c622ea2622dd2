[package]
name = "covid"
version = "0.1.0"
edition = "2021"
publish = false

[dependencies]
gl = "0.14"
imgui = "0.3"
imgui-sdl2 = "0.9"
sdl2 = "0.33"
