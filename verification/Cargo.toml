[package]
name = "sillyengine"
version = "0.1.0"
edition = "2021"
publish = false

[dependencies]
egui = "=0.33.3"
egui_glium = "=0.33.2"
glium = "=0.36.0"
winit = "=0.30.13"
