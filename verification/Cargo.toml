[package]
name = "phi"
version = "0.1.0"
edition = "2021"
publish = false

[dependencies]
uuid = { version = "1", features = ["v4", "serde"] }
serde = { version = "1", features = ["derive"] }
serde_json = "1"
log = "0.4"
env_logger = "*"
dotenv = "0.15"
structopt = "0.3"
tokio = { version = "1", features = ["sync", "rt", "macros", "time"] }
tokio-stream = { version = "*", features = ["sync"] }
actix = "*"
actix-web = { version = "4", default-features = false, features = ["macros", "cookies"] }
actix-web-actors = "4"
actix-session = { version = "*", features = ["cookie-session"] }
actix-files = "*"
async-graphql = "*"
async-graphql-actix-web = "*"
mime = "0.3"
