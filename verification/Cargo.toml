[package]
name = "euler_ode"
version = "0.1.0"
edition = "2021"
publish = false

[dependencies]
meval = "0.2"
bytemuck = "1"
csv = "1"
serde = { version = "1", features = ["derive"] }
config = "*"
