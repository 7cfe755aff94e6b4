[package]
name = "podcast_feed"
version = "0.1.0"
edition = "2021"
publish = false

[dependencies]
chrono = "0.4"
percent-encoding = "2"
rss = "2"
rusoto_core = { version = "=0.42.0", default-features = false, features = ["rustls"] }
rusoto_s3 = { version = "=0.42.0", default-features = false, features = ["rustls"] }
structopt = "0.3"

[dev-dependencies]
roxmltree = "*"
serde_json = "1"
