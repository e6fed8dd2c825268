[package]
name = "dbkp"
version = "0.1.0"
edition = "2021"
publish = false

[dependencies]
anyhow = "=1.0.104"
async-trait = "=0.1.92"
bytes = "=1.12.1"
chrono = "=0.4.45"
clap = { version = "=4.6.7", features = ["derive", "env"] }
colored = "=2.2.0"
dirs = "=5.0.1"
env_logger = { version = "=0.11.11", default-features = false }
flate2 = "=1.1.10"
futures = "=0.3.34"
getrandom = "=0.4.3"
inquire = "=0.7.5"
log = "=0.4.35"
opendal = { version = "=0.59.5", default-features = false, features = ["services-fs", "services-s3"] }
os_info = "=3.15.0"
reqwest = { version = "=0.12.28", default-features = false, features = ["json"] }
serde = { version = "=1.0.229", features = ["derive"] }
serde_json = "=1.0.154"
sqlx = { version = "=0.8.6", default-features = false, features = ["runtime-tokio", "postgres", "mysql"] }
ssh2 = "=0.9.6"
tar = "=0.4.46"
tempfile = "=3.27.0"
tokio = { version = "=1.54.1", features = ["full"] }
uuid = { version = "=1.29.1", features = ["v4"] }
xz2 = "=0.1.7"
