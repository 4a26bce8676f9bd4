[package]
name = "liftlog_store"
version = "0.1.0"
edition = "2021"
publish = false

[dependencies]
diesel = { version = "*", features = ["sqlite"], default-features = false }
libsqlite3-sys = { version = "*", features = ["bundled"] }
dirs = "*"
dotenvy = "*"
