[package]
name = "verification_runtime"
version = "0.1.0"
edition = "2021"
publish = false

[dependencies]
base64 = "=0.23.1"
bollard = "=0.21.1"
futures-util = "0.3"
hyper = "=0.14.32"
routerify = "=3.0.0"
serde_json = "1"
tokio = { version = "1", features = ["macros", "rt-multi-thread", "signal"] }
