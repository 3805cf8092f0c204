[package]
name = "indoor_sensors"
version = "0.1.0"
edition = "2021"
publish = false

[dependencies]
as3935 = "=0.1.0-pre.1"
bme280 = "=0.2.1"
dtoa = "=0.4.8"
embedded-hal = "=0.2.7"
HTU21D = "=0.1.1"
linux-embedded-hal = "=0.3.2"
log = "=0.4.34"
log4rs = "=1.4.0"
mio_httpc = "=0.9.5"
mosquitto-client = "=0.1.5"
rppal = "=0.11.3"
serde = { version = "=1.0.229", features = ["derive"] }
serde_json = "=1.0.154"
serial = "=0.4.0"
sgp30 = "=0.3.2"
