[package]
name = "rustcast"
version = "0.1.0"
edition = "2021"
publish = false

[dependencies]
rss = "2"
url = "2"
ureq = "2"
