[package]
name = "ultime"
version = "0.1.0"
edition = "2021"
publish = false

[dependencies]
surrealdb = { version = "=1.5.6", default-features = false }
convert_case = "=0.12.0"
notify = "=8.2.0"
