[package]
name = "virtual_scroller"
version = "0.1.0"
edition = "2021"
publish = false

[dependencies]
yew = "=0.17.4"
yew-component-size = "=0.1.0"
web-sys = { version = "=0.3.106", features = ["Element"] }
