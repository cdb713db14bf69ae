[package]
name = "shoe_tightener"
version = "0.1.0"
edition = "2021"
publish = false

[dependencies]
bt-hci = "=0.2.1"
defmt = "=0.3.101"
embassy-executor = "=0.7.0"
embassy-futures = "=0.1.2"
embassy-sync = "=0.6.2"
embassy-time = "=0.4.0"
static_cell = "=2.1.1"
trouble-host = "=0.1.0"

[dev-dependencies]
uuid = "=1.29.0"
