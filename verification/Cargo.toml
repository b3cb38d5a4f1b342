[package]
name = "marvin"
version = "0.1.0"
edition = "2021"
publish = false

[dependencies]
anyhow = "1"
barrel = { version = "=0.7.0", features = ["pg"] }
chrono = "=0.4.45"
dotenv = "0.15"
dptree = "=0.1.2"
lazy_static = "1"
log = "0.4"
sqlx = { version = "=0.5.13", default-features = false, features = ["runtime-tokio-rustls", "postgres"] }
# teloxide-core takes any takecell 0.1; the release after 0.1.1 asks for a newer compiler.
takecell = "=0.1.1"
teloxide = { version = "=0.7.3", default-features = false, features = ["rustls", "ctrlc_handler", "auto-send", "macros", "dispatching2"] }
tokio = { version = "1", features = ["rt-multi-thread", "macros", "time"] }
tokio-cron-scheduler = "=0.15.1"
# teloxide-core uses tokio-util's codec module without asking for the feature.
tokio-util = { version = "=0.6.10", features = ["codec"] }
