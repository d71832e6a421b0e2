[package]
name = "punchtop"
version = "0.1.0"
edition = "2021"
publish = false

[dependencies]
bytes = "1"
byteorder = "1"
protobuf = "2"
serde_json = { version = "1", features = ["preserve_order"] }
serde = { version = "1", features = ["derive"] }
rand = "0.6"
url = "1"
native-tls = "0.2"
mdns = "0.3"
rouille = "3"
walkdir = "2"
tree_magic = "0.2"
mp3-duration = "0.1"
mp4parse = "0.17"
base64 = "0.10"
log = "0.4"
env_logger = "0.11"
dirs = "6"
elapsed = "0.1"
floating-duration = "0.1"
web-view = "0.7"
