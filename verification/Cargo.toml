[package]
name = "mediocre"
version = "0.1.0"
edition = "2021"
publish = false

[dependencies]
ammonia = "3"
anyhow = "1"
chrono = "0.4"
comrak = { version = "0.18", default-features = false }
derive_more = "0.99"
git2 = "0.14"
log = "0.4"
log4rs = { version = "1", default-features = false, features = ["console_appender", "rolling_file_appender", "compound_policy", "delete_roller", "size_trigger", "pattern_encoder"] }
pickledb = { version = "0.5", default-features = false, features = ["json"] }
relative-path = "1"
serde = { version = "1", features = ["derive"] }
walkdir = "2"
