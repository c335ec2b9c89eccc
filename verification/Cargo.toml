[package]
name = "neopilot"
version = "0.1.0"
edition = "2021"
publish = false

[dependencies]
tree-sitter = "0.25"
tree-sitter-language = "0.1"
tree-sitter-rust = "*"
tree-sitter-python = "*"
tree-sitter-php = "*"
tree-sitter-java = "*"
tree-sitter-javascript = "*"
tree-sitter-typescript = "*"
tree-sitter-go = "*"
tree-sitter-c = "*"
tree-sitter-cpp = "*"
tree-sitter-lua = "*"
tree-sitter-ruby = "*"
tree-sitter-zig = "*"
tree-sitter-scala = "*"
tree-sitter-swift = "*"
tree-sitter-elixir = "*"
tree-sitter-c-sharp = "*"
tiktoken-rs = "*"
tokenizers = "*"
url = "2"
dirs = "*"
num_cpus = "*"
serde = { version = "1", features = ["derive"] }
thiserror = "*"
toml = "*"
reqwest = { version = "0.12", default-features = false, features = ["blocking", "rustls-tls"] }
mlua = { version = "*", features = ["lua54", "vendored"] }
