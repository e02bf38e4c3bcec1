[package]
name = "movey"
version = "0.1.0"
edition = "2021"
publish = false

[dependencies]
regex = "1"
semver = "1"
slug = "0.1"
convert_case = "0.6"
strip_markdown = "0.2"
serde = { version = "1", features = ["derive"] }
serde_json = "1"
toml = "0.5"
reqwest = { version = "0.11", default-features = false, features = ["blocking", "json", "multipart", "rustls-tls"] }
rayon = "1"
diesel = { version = "1.4", features = ["postgres", "chrono", "r2d2"] }
chrono = "0.4"
log = "0.4"
dotenv = "0.15"
