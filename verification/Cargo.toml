[package]
name = "pxexec"
version = "0.1.0"
edition = "2021"
publish = false

[dependencies]
dotenv = "*"
iron = "*"
mount = "*"
router = "*"
serde = "*"
serde_json = "*"
staticfile = "*"
tempfile = "*"
