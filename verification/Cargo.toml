[package]
name = "rssdeploy"
version = "0.1.0"
edition = "2021"
publish = false

[dependencies]
color-eyre = "=0.6.5"
cote = { version = "=0.17.2", features = ["shell"] }
prettytable-rs = { version = "=0.10.0", default-features = false }
rustyline = { version = "=19.0.0", features = ["derive"] }
serde = { version = "=1.0.229", features = ["derive"] }
serde_json = "=1.0.154"
shellexpand = { version = "=3.1.2", features = ["full"] }
symlink = "=0.1.0"
tokio = { version = "=1.54.1", features = ["rt-multi-thread", "macros", "sync", "process", "fs"] }
whoami = "=2.1.3"
