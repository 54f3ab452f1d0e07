[package]
name = "webdav_adapter"
version = "0.1.0"
edition = "2021"
publish = false

[dependencies]
actix-web = { version = "4", default-features = false }
bytes = "1"
futures = "0.3"
headers = "0.4"
http = "1"
http-body = "1"
time = { version = "0.3", default-features = false, features = ["formatting"] }
warp = { version = "0.3", default-features = false }
