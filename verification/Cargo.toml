[package]
name = "sensor_node"
version = "0.1.0"
edition = "2021"
publish = false

[dependencies]
aht10-embedded = "*"
critical-section = "1"
embedded-graphics = "0.8"
embedded-hal-bus = "0.2"
esp-alloc = "0.5"
esp-backtrace = { version = "0.14", features = ["esp32c3", "panic-handler"] }
esp-hal = { version = "0.22", features = ["esp32c3"] }
esp-wifi = { version = "0.11", features = ["esp32c3", "esp-now"] }
fugit = "0.3"
ssd1306 = "0.9"
u8g2-fonts = "*"
