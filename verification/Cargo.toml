[package]
name = "topiary-core"
version = "0.1.0"
edition = "2021"
publish = false

[dependencies]
miette = "=7.6.0"
rootcause = "=0.13.0"
serde_json = "=1.0.154"
topiary-tree-sitter-facade = "=0.8.0"

[dev-dependencies]
tree-sitter = "=0.26.12"
tree-sitter-json = "*"
