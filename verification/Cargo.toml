[package]
name = "esp-test"
version = "0.1.0"
edition = "2021"
publish = false

[dependencies]
toml = "=0.9.8"
serde = { version = "1", features = ["derive"] }
littlefs2 = "0.6"
embedded-storage = "0.3"
esp-storage = "0.7"
sntpc = "0.5"
reqwless = "0.13"
embassy-net = { version = "0.7", features = ["tcp", "udp", "dns", "dhcpv4", "medium-ethernet", "proto-ipv4"] }
embassy-time = "0.4"
embassy-executor = "0.7"
embedded-nal-async = "0.8"
typenum = "1"
once_cell = "1"
static_cell = "2"
log = "0.4"
thiserror = "2"
rand_core = "0.9"
critical-section = "1"
esp-hal = ">=1.0.0-rc.0, <1.1.0"
esp-hal-embassy = "0.9"
esp-wifi = "0.15"
esp-alloc = "0.8"
esp-backtrace = "0.17"
esp-println = "0.15"
esp-bootloader-esp-idf = "0.2"
