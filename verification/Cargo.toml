[package]
name = "subassembly"
version = "0.1.0"
edition = "2021"
publish = false

[dependencies]
smart-leds = "=0.3.0"
embedded-hal = "=0.2.7"
cortex-m = "=0.7.10"
cortex-m-rt = "=0.7.7"
atsamd-hal = { version = "=0.16.0", features = ["samd11d-rt"] }
rtt-target = "=0.6.2"
ws2812-timer-delay = "=0.3.0"
