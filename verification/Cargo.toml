[package]
name = "query_method"
version = "0.1.0"
edition = "2021"
publish = false

[dependencies]
qstring = "0.7"
actix-web = { version = "4", default-features = false }
actix-service = "2"
futures = "0.3"
tracing = "0.1"
