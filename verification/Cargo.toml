[package]
name = "greeter"
version = "0.1.0"
edition = "2021"
publish = false

[dependencies]
prost = "=0.14.4"
tokio = { version = "=1.54.1", features = ["macros", "rt-multi-thread"] }
tonic = "=0.14.6"
tonic-prost = "0.14"
tonic-web = "=0.14.6"
