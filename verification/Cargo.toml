[package]
name = "tarzi"
version = "0.1.0"
edition = "2021"
publish = false

[dependencies]
select = "0.6"
serde_json = "1"
url = "2"
urlencoding = "2"
html2md = "0.2"
pulldown-cmark = { version = "0.9", default-features = false }
regex = "1"
clap = { version = "4", features = ["derive"] }
tokio = { version = "1", features = ["full"] }
reqwest = { version = "0.12", default-features = false, features = ["json", "rustls-tls"] }
serde = { version = "1", features = ["derive"] }
serde_yaml = "0.9"
toml = "0.8"
tracing = "0.1"
tracing-subscriber = "0.3"
thirtyfour = "*"
