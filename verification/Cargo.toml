[package]
name = "bevy_trimesh"
version = "0.1.0"
edition = "2021"
rust-version = "1.95.0"
publish = false

[dependencies]
bevy = { version = "=0.19.1", default-features = false, features = ["bevy_mesh", "std"] }
parry3d = "=0.17.6"
thiserror = "=1.0.69"
