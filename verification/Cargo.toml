[package]
name = "display_bus"
version = "0.1.0"
edition = "2021"
publish = false

[dependencies]
critical-section = "=1.2.0"
embedded-graphics = "=0.8.2"
embedded-hal = "=0.2.7"
esp-alloc = "0.3"
esp-backtrace = "=0.20.0"
esp-println = "=0.18.0"
esp32-hal = "=0.18.1"
shared-bus = "=0.3.1"
ssd1306 = "=0.8.4"
st7735-lcd = "=0.9.0"
static_cell = "=2.1.1"

[dev-dependencies]
arrform = "=0.1.1"
