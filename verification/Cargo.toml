[package]
name = "oh_my_chess"
version = "0.1.0"
edition = "2021"
publish = false

[dependencies]
ink = { version = "4.2", default-features = false, features = ["std"] }
parity-scale-codec = { version = "3", default-features = false, features = ["derive", "std"] }
scale-info = { version = "2", default-features = false, features = ["derive", "std"] }
pink-extension = { version = "0.4", default-features = false, features = ["std"] }
serde = { version = "1.0", default-features = false, features = ["derive", "alloc"] }
serde-json-core = { version = "0.5" }
