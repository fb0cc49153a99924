[package]
name = "flutter_video_plugin"
version = "0.1.0"
edition = "2021"
publish = false

[dependencies]
av-codec = "*"
av-data = "*"
av-format = "*"
cpal = "*"
crossbeam = "*"
env_logger = "*"
flutter-engine = "*"
flutter-plugins = "*"
glutin = "*"
image = "*"
log = "*"
serde = { version = "*", features = ["derive"] }
