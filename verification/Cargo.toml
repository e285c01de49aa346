[package]
name = "blog_editor"
version = "0.1.0"
edition = "2021"
publish = false

[dependencies]
reqwest = { version = "*", default-features = false, features = ["blocking", "json"] }
rpassword = "*"
serde = { version = "*", features = ["derive"] }
