[package]
name = "faderpunk"
version = "0.1.0"
edition = "2021"
publish = false

[dependencies]
embassy-futures = "=0.1.2"
heapless = "=0.8.0"
libm = "=0.2.16"
max11300 = "=0.5.3"
midly = { version = "=0.5.3", default-features = false }
postcard = { version = "=1.1.3", default-features = false }
serde = { version = "=1.0.229", default-features = false, features = ["derive"] }
