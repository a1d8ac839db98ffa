[package]
name = "codemap"
version = "0.1.0"
edition = "2021"
publish = false

[dependencies]
tree-sitter = "=0.27.1"
tree-sitter-bash = "=0.25.1"
tree-sitter-c = "=0.24.2"
tree-sitter-c-sharp = "=0.23.5"
tree-sitter-cpp = "=0.23.4"
tree-sitter-css = "=0.25.0"
tree-sitter-elixir = "=0.3.5"
tree-sitter-go = "=0.25.0"
tree-sitter-graphql = "=0.3.0"
tree-sitter-groovy = "=0.1.2"
tree-sitter-haskell = "=0.23.1"
tree-sitter-java = "=0.23.5"
tree-sitter-javascript = "=0.25.0"
tree-sitter-julia = "=0.23.1"
tree-sitter-kotlin-ng = "=1.1.0"
tree-sitter-lua = "=0.5.0"
tree-sitter-make = "=1.1.1"
tree-sitter-matlab = "=1.3.1"
tree-sitter-prisma-io = "=1.6.0"
tree-sitter-proto = "=0.6.0"
tree-sitter-python = "=0.25.0"
tree-sitter-r = "=1.3.0"
tree-sitter-ruby = "=0.23.1"
tree-sitter-rust = "=0.24.2"
tree-sitter-sequel = "=0.3.11"
tree-sitter-swift = "=0.7.4"
tree-sitter-typescript = "=0.23.2"
tree-sitter-xml = "=0.7.0"
tree-sitter-yaml = "=0.7.2"
tree-sitter-zig = "=1.1.2"
