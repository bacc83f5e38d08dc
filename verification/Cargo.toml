[package]
name = "diesel_full_text_search"
version = "0.1.0"
edition = "2021"
publish = false

[dependencies]
diesel = { version = "*", default-features = false, features = ["postgres_backend"] }
