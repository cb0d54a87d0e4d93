[package]
name = "voxel_scene"
version = "0.1.0"
edition = "2021"
publish = false

[dependencies]
collision = "=0.15.1"
rhusics-core = "=0.3.0"
rhusics-ecs = "=0.3.0"
