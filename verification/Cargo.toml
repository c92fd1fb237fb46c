[package]
name = "cjn_os"
version = "0.1.0"
edition = "2021"
publish = false

[dependencies]
pc-keyboard = "=0.9.0"
pic8259 = "=0.11.0"
spin = "=0.12.3"
volatile = "=0.2.7"

[dependencies.x86_64]
version = "=0.15.5"
default-features = false
features = ["instructions"]
