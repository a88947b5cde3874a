[package]
name = "emoji_picker_core"
version = "0.1.0"
edition = "2021"
publish = false

[dependencies]
aho-corasick = "*"
fuzzy-matcher = "*"
emojis = "*"
serde_json = "*"
