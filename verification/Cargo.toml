[package]
name = "greeter"
version = "0.1.0"
edition = "2021"
publish = false

[dependencies]
http = "1"
prost = "0.13"
tokio = { version = "1", features = ["macros", "rt-multi-thread"] }
tonic = "0.12"
tonic-web = "0.12"
tower = { version = "0.4", features = ["util"] }
tower-http = { version = "0.5", features = ["cors"] }
