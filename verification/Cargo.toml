[package]
name = "not-too-many-arcseconds"
version = "0.1.0"
edition = "2021"
publish = false

[dependencies]

[dev-dependencies]
quickcheck = { version = "1", default-features = false }
