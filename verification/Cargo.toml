[package]
name = "nflreadrust"
version = "0.1.0"
edition = "2021"
publish = false

[dependencies]
chrono = "*"
dirs = "*"
md5 = "*"
polars = { version = "*", default-features = false, features = ["parquet", "csv", "lazy", "is_in", "diagonal_concat"] }
reqwest = { version = "*", default-features = false, features = ["blocking", "rustls-tls"] }
