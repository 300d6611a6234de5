[package]
name = "sourcepawn_lsp"
version = "0.1.0"
edition = "2021"
publish = false

[dependencies]
la-arena = "=0.3.1"
smallvec = "=1.16.5"
regex = "=1.13.1"
lsp-types = "=0.94.1"
tree-sitter = "*"

[dev-dependencies]
tree-sitter-sourcepawn = "=0.7.8"
