[package]
name = "pitft_async"
version = "0.1.0"
edition = "2021"
publish = false

[dependencies]
embassy-sync = "=0.8.0"
embassy-time = "=0.5.1"
embassy-futures = "=0.1.2"
embassy-executor = "=0.10.0"
embedded-graphics = "=0.8.2"
embedded-graphics-framebuf = "=0.5.0"
embedded-hal = "*"
embedded-hal-async = "*"
embedded-hal-bus = "=0.3.0"
display-interface-spi = "=0.5.0"
ili9341 = "=0.6.0"
eg-seven-segment = "=0.2.0"
profont = "*"
tinytga = "*"
heapless = "=0.9.3"
rotary-encoder-hal = "*"
log = "*"
derive_more = { version = "=2.1.1", features = ["display", "error", "from"] }

[dev-dependencies]
critical-section = { version = "=1.2.0", features = ["std"] }
