[package]
name = "pyoxidizer"
version = "0.1.0"
edition = "2021"
publish = false

[dependencies]
anyhow = "1"
git2 = "0.13"
lazy_static = "1"
linked-hash-map = "0.5"
python-packaging = "*"
semver = "0.11"
starlark = "0.3"
starlark-dialect-build-targets = "*"
