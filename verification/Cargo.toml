[package]
name = "embedded_usb_host"
version = "0.1.0"
edition = "2021"
publish = false

[dependencies]
heapless = "=0.7.17"
hash32 = "=0.2.1"
utf16string = "=0.2.0"
embedded-midi = "=0.1.2"
embedded-hal = "=0.2.7"
atsamd-hal = { version = "=0.13.0", features = ["samd21g"] }
