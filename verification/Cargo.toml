[package]
name = "html_2_md"
version = "0.1.0"
edition = "2021"
publish = false

[dependencies]
base64 = "*"
futures = "0.3"
html-to-markdown-rs = "*"
spin-sdk = "5.2.0"
url = "2"
