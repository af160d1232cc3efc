[package]
name = "falcato"
version = "0.1.0"
edition = "2021"
publish = false

[dependencies]
cranelift-codegen = "0.112"
cranelift-frontend = "0.112"
