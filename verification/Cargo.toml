[package]
name = "vantablock_client"
version = "0.1.0"
edition = "2021"
publish = false

[dependencies]
offset-allocator = "=0.2.0"
image = { version = "=0.25.10", default-features = false, features = ["png"] }
glob = "=0.3.4"
ron = "=0.12.3"
serde = { version = "=1.0.229", features = ["derive"] }
bytemuck = { version = "=1.25.2", features = ["derive"] }
bevy = { version = "=0.18.1", default-features = false }
