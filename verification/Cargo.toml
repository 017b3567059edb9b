[package]
name = "buildpack_core"
version = "0.1.0"
edition = "2021"
publish = false

[dependencies]
sha2 = "=0.11.0"
url = "=2.5.8"
fun_run = "=0.8.0"
indoc = "=2.0.7"
serde = { version = "=1.0.229", features = ["derive"] }
tempfile = "=3.27.0"
