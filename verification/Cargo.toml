[package]
name = "multiwii_serial_protocol"
version = "0.1.0"
edition = "2021"
publish = false

[dependencies]
packed_struct = "*"
packed_struct_codegen = "*"
serde = { version = "1", features = ["derive"] }
serde_derive = "1"
