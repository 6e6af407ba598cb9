[package]
name = "pg_geometry"
version = "0.1.0"
edition = "2021"
publish = false

[dependencies]
postgis = "0.9.0"
