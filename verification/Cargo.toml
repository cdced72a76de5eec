[package]
name = "zircon"
version = "0.1.0"
edition = "2021"
publish = false

[dependencies]
regex = "=1.13.1"
url = "=2.5.8"
serde = "=1.0.229"
serde_json = "=1.0.154"
hyper = "=0.11.27"
futures = "=0.1.31"
futures-cpupool = "=0.1.8"
tokio-core = "=0.1.18"
net2 = "=0.2.39"
handlebars = "=0.29.1"
typemap = "=0.3.3"
cookie = { version = "=0.15.2", features = ["signed", "percent-encode"] }
walkdir = "=2.5.0"
log = "=0.4.34"
