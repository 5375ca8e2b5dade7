[package]
name = "modify_mac_utils"
version = "0.1.0"
edition = "2021"
publish = false

[dependencies]
jni = "0.19"
libc = "0.2"
log = "0.4"
android_logger = "0.10"
