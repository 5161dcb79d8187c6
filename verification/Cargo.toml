[package]
name = "dockertest_dockerfile"
version = "0.1.0"
edition = "2021"
publish = false

[dependencies]
bollard = "*"
flate2 = "*"
futures = "*"
tar = "*"
tracing = "*"
