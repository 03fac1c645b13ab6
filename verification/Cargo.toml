[package]
name = "tenkbclub"
version = "0.1.0"
edition = "2021"
publish = false

[dependencies]
actix-web = { version = "4", default-features = false, features = ["macros"] }
hex = "0.4"
mime = "0.3"
minijinja = { version = "2", features = ["loader"] }
r2d2 = "0.8"
r2d2_sqlite = "*"
rand = "0.8"
regex = "1"
reqwest = { version = "0.12", features = ["json"] }
rusqlite = "*"
serde = { version = "1", features = ["derive"] }
serde_json = "1"
tokio = { version = "1", features = ["macros", "rt-multi-thread", "time"] }
tracing = "0.1"
tracing-subscriber = "0.3"
url = "2"
