[package]
name = "rmk_core"
version = "0.1.0"
edition = "2021"
publish = false

[dependencies]
serde = { version = "*", features = ["derive"] }
postcard = { version = "*", features = ["alloc"] }
postcard-rpc = "*"
postcard-schema = { version = "*", features = ["derive"] }
embedded-hal = "*"
embedded-graphics = "*"
bitfield-struct = "*"
memory-lcd-spi = "*"
embassy-time = { version = "*", features = ["std"] }
futures = "*"
