[package]
name = "garde_actix_web"
version = "0.1.0"
edition = "2021"
publish = false

[dependencies]
actix-web = { version = "4", default-features = false }
actix-http = "3"
actix-router = "0.5"
actix-web-lab = "*"
futures = "0.3"
garde = { version = "0.22", default-features = false }
log = "0.4"
mime = "0.3"
serde = "1"
serde_qs = "0.15"
serde_urlencoded = "0.7"

[dev-dependencies]
serde_json = "1"
