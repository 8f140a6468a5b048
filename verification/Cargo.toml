[package]
name = "here"
version = "0.1.0"
edition = "2021"
publish = false

[dependencies]
clap = { version = "4", features = ["derive"] }
clap_complete = "4"
clap-markdown = "*"
cli-clipboard = "*"
colored = "*"
enigo = "*"
havsalt-clap-styles = "*"
inquire = "*"
path-clean = "*"
