[package]
name = "zotero_client"
version = "0.1.0"
edition = "2021"
publish = false

[dependencies]
url = "*"
serde_json = "*"
reqwest = { version = "*", default-features = false }
log = "*"
thiserror = "*"
