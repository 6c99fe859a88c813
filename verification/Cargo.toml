[package]
name = "swipe_gesture"
version = "0.1.0"
edition = "2021"
publish = false

[dependencies]
android_logger = "*"
jni = "0.21"
log = "0.4"
pollster = "*"
wgpu = "26"
winit = { version = "0.30", features = ["android-native-activity"] }
