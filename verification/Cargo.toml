[package]
name = "reflow_controller"
version = "0.1.0"
edition = "2021"
publish = false

[dependencies]
defmt = "=1.2.0"
embassy-executor = "=0.10.0"
embassy-futures = "=0.1.2"
embassy-sync = "=0.8.0"
embassy-time = "=0.5.1"
esp-alloc = "=0.11.0"
esp-hal = { version = "=1.2.2", features = ["esp32c6", "unstable"] }
esp-rtos = { version = "=0.4.0", features = ["esp32c6", "embassy"] }
heapless = "=0.8.0"
splines = "=5.0.0"
static_cell = "=2.1.1"

[dev-dependencies]
pid = "=4.0.0"
