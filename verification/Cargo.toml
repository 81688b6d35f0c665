[package]
name = "podpipe"
version = "0.1.0"
edition = "2021"
publish = false

[dependencies]
tokio-util = "=0.7.19"
symphonia = { version = "=0.5.5", features = ["mp3"] }
rubato = "=0.16.2"
rusqlite = { version = "=0.40.2", features = ["bundled"] }
