[package]
name = "equipfun"
version = "0.1.0"
edition = "2021"
publish = false

[dependencies]
uuid = "0.7"
rusted_cypher = "1.1"
chrono = "0.4"
juniper = "0.11"
juniper_rocket = "0.2"
rocket = "0.4"
rocket_contrib = { version = "0.4", default-features = false, features = ["cypher_pool", "serve"] }
