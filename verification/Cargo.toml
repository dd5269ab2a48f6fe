[package]
name = "git_transport"
version = "0.1.0"
edition = "2021"
publish = false

[dependencies]
gix = { version = "=0.88.0", default-features = false, features = ["sha1", "parallel"] }
russh = "=0.63.3"
tokio = { version = "=1.53.2", features = ["macros", "rt-multi-thread", "io-util", "sync", "net", "time"] }
