[package]
name = "android_pathfinding"
version = "0.1.0"
edition = "2021"
publish = false

[dependencies]
android_logger = "=0.11.3"
anyhow = "=1.0.104"
bracket-pathfinding = "=0.8.4"
jni = "=0.19.0"
log = "=0.4.34"
once_cell = "=1.21.4"
