[package]
name = "cosmic_gfwd"
version = "0.1.0"
edition = "2021"
publish = false

[dependencies]
zbus = "5"
zvariant = "5"
