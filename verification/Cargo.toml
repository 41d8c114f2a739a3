[package]
name = "rich_click_rs"
version = "0.1.0"
edition = "2021"
publish = false

[dependencies]
click-rs = "*"
rich-rs = "*"
serde_json = "*"
