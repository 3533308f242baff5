[package]
name = "coa_gatt"
version = "0.1.0"
edition = "2021"
publish = false

[dependencies]
trouble-host = "*"
embassy-sync = "*"
embassy-futures = "*"
embassy-time = "*"
embassy-executor = "*"
heapless = "*"
defmt = "*"
embedded-graphics = "*"
ssd1306 = "*"
