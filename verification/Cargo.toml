[package]
name = "jni_high"
version = "0.1.0"
edition = "2021"
publish = false

[dependencies]
heck = "0.5"
jni = "*"
syn = { version = "2", features = ["full"] }
quote = "1"
proc-macro2 = "1"
log = "0.4"
android-activity = { version = "*", features = ["native-activity"] }
