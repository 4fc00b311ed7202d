[package]
name = "formatter_kotlin"
version = "0.1.0"
edition = "2021"
publish = false

[dependencies]
topiary-core = "*"
topiary-tree-sitter-facade = "*"
tree-sitter-kotlin-ng = "*"
thiserror = "*"
