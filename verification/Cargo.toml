[package]
name = "godot_rich_text"
version = "0.1.0"
edition = "2021"
publish = false

[dependencies]
godot = "*"
text-document = "*"
text-typeset = "*"
