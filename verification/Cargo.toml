[package]
name = "mqtt_broker"
version = "0.1.0"
edition = "2021"
publish = false

[dependencies]
dotenv = "=0.15.0"
log = "=0.4.34"
rumqttd = { version = "=0.14.0", features = ["websockets"] }
simple_logger = "=5.2.0"
