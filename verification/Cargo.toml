[package]
name = "soup_game"
version = "0.1.0"
edition = "2021"
publish = false

[dependencies]
critical-section = "1"
embassy-executor = "*"
embassy-sync = "*"
embassy-time = "*"
embedded-graphics = "0.8"
embedded-hal-bus = "*"
esp-alloc = "*"
esp-backtrace = { version = "*", features = ["esp32c3", "panic-handler", "println"] }
esp-bootloader-esp-idf = { version = "*", features = ["esp32c3"] }
esp-hal = { version = "1", features = ["esp32c3", "unstable"] }
esp-println = { version = "*", features = ["esp32c3", "log-04"] }
esp-rtos = { version = "*", features = ["esp32c3", "embassy"] }
log = "0.4"
mipidsi = "*"
tinyqoi = "*"
