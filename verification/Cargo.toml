[package]
name = "bux"
version = "0.1.0"
edition = "2021"
publish = false

[dependencies]
anyhow = "=1.0.104"
clap = { version = "=4.6.7", features = ["derive"] }
dirs = "=7.0.0"
libc = "=0.2.191"
libcontainer = { version = "=0.7.0", default-features = false, features = ["v2"] }
nix = { version = "=0.31.3", features = ["fs", "poll", "process", "signal"] }
oci-spec = { version = "=0.10.0", default-features = false, features = ["runtime"] }
rcgen = { version = "=0.13.2", default-features = false, features = ["pem", "ring"] }
serde = { version = "=1.0.229", features = ["derive"] }
serde_json = "=1.0.154"
sha2 = "0.11"
time = "=0.3.55"
tokio = { version = "=1.54.1", features = ["fs", "io-util", "macros", "process", "rt-multi-thread", "signal", "sync", "time"] }
tracing = "=0.1.44"
