[package]
name = "common_logic"
version = "0.1.0"
edition = "2021"
publish = false

[dependencies]
xdevs-no-std = { version = "=0.3.0", features = ["std", "embassy"] }
tokio = { version = "=1.54.1", features = ["full"] }
csv = "=1.4.0"
rand = "=0.10.3"
rand_distr = "=0.6.0"
embassy-executor = "=0.10.0"
embassy-sync = "=0.8.0"
embassy-time = "=0.5.1"
embedded-io-async = "=0.7.0"
heapless = "=0.9.3"
bme280-rs = "=0.4.1"
esp-hal = "=1.2.2"
esp-rtos = "=0.4.0"
esp-println = "=0.18.0"
esp-bootloader-esp-idf = "=0.6.0"
esp-alloc = "*"
