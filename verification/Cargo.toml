[package]
name = "palm_counting_ai"
version = "0.1.0"
edition = "2021"
publish = false

[dependencies]
dirs = "*"
rusqlite = { version = "*", features = ["bundled"] }
serde_json = "*"
zip = { version = "*", default-features = false, features = ["deflate"] }
sysinfo = "*"
reqwest = { version = "*", default-features = false, features = ["blocking", "json"] }
