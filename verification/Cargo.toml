[package]
name = "the_book"
version = "0.1.0"
edition = "2021"
publish = false

[dependencies]
chrono = "0.4"
futures = "0.3"
lazy_static = "1"
rand = "0.8"
regex = "1"
