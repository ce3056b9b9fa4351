[package]
name = "speculare_server"
version = "0.1.0"
edition = "2021"
publish = false

[dependencies]
actix-web = "4"
actix-http = "3"
actix-session = { version = "*", features = ["cookie-session"] }
actix-identity = "*"
actix-threadpool = "*"
ahash = "*"
chrono = { version = "*", features = ["serde"] }
clap = { version = "4", features = ["derive"] }
clap-verbosity-flag = "*"
diesel = { version = "2", features = ["postgres", "r2d2", "chrono"] }
diesel_migrations = "2"
dotenv = "*"
env_logger = "*"
evalexpr = "*"
futures-util = "*"
log = "*"
moka = { version = "*", features = ["sync", "future"] }
once_cell = "*"
r2d2 = "*"
rand = "0.7"
reqwest = { version = "0.11", features = ["json", "multipart"] }
serde = { version = "1", features = ["derive"] }
serde_json = "1"
tracing-subscriber = "*"
uuid = "1"
