[package]
name = "button_blink"
version = "0.1.0"
edition = "2021"
publish = false

[dependencies]
critical-section = "=1.2.0"
esp-backtrace = { version = "=0.14.2", features = ["esp32c3", "exception-handler", "panic-handler", "println"] }
esp-println = { version = "=0.12.0", features = ["esp32c3"] }

[dev-dependencies]
critical-section = { version = "=1.2.0", features = ["std"] }
