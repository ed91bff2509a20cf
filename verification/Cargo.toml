[package]
name = "lfs"
version = "0.1.0"
edition = "2021"
publish = false

[dependencies]
git2 = "*"
async-trait = "*"
thiserror = "*"
tracing = "*"
url = "*"
