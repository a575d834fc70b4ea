[package]
name = "hello_server"
version = "0.1.0"
edition = "2021"
publish = false

[dependencies]
defmt = "*"
defmt-rtt = "*"
embassy-executor = "*"
embassy-net = { version = "*", features = ["proto-ipv4", "tcp", "medium-ethernet"] }
embassy-stm32 = { version = "*", features = ["stm32h743zi", "time-driver-any"] }
embassy-time = "*"
embedded-io-async = "*"
heapless = "*"
panic-probe = "*"
static_cell = "*"
