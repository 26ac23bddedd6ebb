[package]
name = "esp_preempt"
version = "0.1.0"
edition = "2021"
publish = false

[dependencies]
crc = "=3.4.0"
portable-atomic = "=1.15.0"
heapless = "=0.8.0"
embedded-storage = "=0.3.2"
critical-section = { version = "=1.2.0", features = ["std"] }
esp32c6 = "=0.25.0"
esp32c2 = "=0.31.0"
esp32c3 = "=0.34.0"
esp32c5 = "*"
syn = { version = "2", features = ["full"] }
quote = "1"
proc-macro2 = "1"
serde = { version = "1", features = ["derive"] }
serde_json = "1"
schemars = "1"
anyhow = "1"
log = "0.4"
inventory = "0.3"
rmcp = { version = "*", features = ["server", "transport-io"] }
