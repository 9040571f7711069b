[package]
name = "cobweb"
version = "0.1.0"
edition = "2021"
publish = false

[dependencies]
scraper = "=0.27.0"
reqwest = { version = "=0.13.5", default-features = false, features = ["blocking", "query"] }
argh = "=0.1.19"
anyhow = "=1.0.104"
log = "=0.4.34"
flexi_logger = "=0.31.10"
