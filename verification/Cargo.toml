[package]
name = "led_button"
version = "0.1.0"
edition = "2021"
publish = false

[dependencies]
cortex-m = { version = "=0.7.10", features = ["critical-section-single-core"] }
cortex-m-rt = "=0.7.7"
k1921vk035-pac = { version = "=0.1.2", features = ["rt", "critical-section"] }
panic-halt = "=1.0.0"
