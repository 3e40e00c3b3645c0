[package]
name = "rafn"
version = "0.1.0"
edition = "2021"
publish = false

[dependencies]
url = "2"
urlencoding = "2"
chrono = "0.4"
colored = "2"
serde = { version = "1", features = ["derive"] }
serde_json = "1"
toml = "0.8"
config = { version = "0.14", default-features = false, features = ["toml"] }
clap = { version = "4", features = ["derive", "env"] }
tabled = "0.16"
tracing = "0.1"
tracing-subscriber = { version = "0.3", features = ["env-filter"] }
uuid = { version = "1", features = ["v4"] }
anyhow = "1"
thiserror = "1"
tokio = { version = "1", features = ["macros", "rt-multi-thread"] }
libc = "0.2"
reqwest = { version = "0.12", default-features = false, features = ["json"] }

[dev-dependencies]
tempfile = "3"
