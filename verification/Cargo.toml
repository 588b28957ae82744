[package]
name = "rust_saf"
version = "0.1.0"
edition = "2021"
publish = false

[dependencies]
jni = "=0.21.1"
log = "0.4"
ndk-context = "0.1.1"
tracing-logcat = "0.1.0"
tracing-subscriber = "0.3"
