[package]
name = "chat_core"
version = "0.1.0"
edition = "2021"
publish = false

[dependencies]
serde_json = "1"
serde = { version = "1", features = ["derive"] }
log = "0.4"
yew = "0.19"
yew-agent = "0.1"
web-sys = { version = "0.3", features = ["HtmlInputElement", "KeyboardEvent"] }
