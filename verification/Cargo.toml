[package]
name = "loteria"
version = "0.1.0"
edition = "2021"
publish = false

[dependencies]
rand = "0.8"
yew = { version = "0.21", features = ["csr"] }
gloo-timers = "0.3"
web-sys = { version = "0.3", features = ["HtmlInputElement", "console"] }
