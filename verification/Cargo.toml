[package]
name = "frc_interface"
version = "0.1.0"
edition = "2021"
publish = false

[dependencies]
godot = "0.2"
vigem-client = "=0.1.4"
