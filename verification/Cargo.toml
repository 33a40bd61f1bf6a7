[package]
name = "urban_classifier"
version = "0.1.0"
edition = "2021"
publish = false

[dependencies]
clap = "*"
dirs = "*"
gdal = "*"
indicatif = "*"
polars = { version = "*", default-features = false, features = ["csv", "fmt"] }
reqwest = { version = "*", default-features = false, features = ["blocking", "rustls-tls"] }
thiserror = "*"
