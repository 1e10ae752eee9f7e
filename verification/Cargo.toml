[package]
name = "gaussian_splatting"
version = "0.1.0"
edition = "2021"
publish = false

[dependencies]
bevy = { version = "0.12", default-features = false, features = ["bevy_asset"] }
bincode2 = "=2.0.1"
bytemuck = { version = "=1.25.2", features = ["derive"] }
flate2 = "=1.1.10"
kd-tree = "=0.6.2"
ply-rs = "=0.1.3"
rand = "=0.8.8"
rayon = "=1.12.0"
serde = { version = "=1.0.229", features = ["derive"] }
static_assertions = "=1.1.0"
typenum = "=1.20.1"
