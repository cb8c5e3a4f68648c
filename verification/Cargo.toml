[package]
name = "mqtt_sink"
version = "0.1.0"
edition = "2021"
publish = false

[dependencies]
rumqttc = { version = "*", default-features = false }
tokio = { version = "1", features = ["macros", "rt", "time"] }
futures = "0.3"
async-trait = "0.1"
bytes = "1"
tokio-util = { version = "0.7", features = ["codec"] }
snafu = "*"
