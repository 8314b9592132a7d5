[package]
name = "manaos"
version = "0.1.0"
edition = "2021"
publish = false

[dependencies]
x86_64 = { version = "=0.15.5", default-features = false, features = ["instructions"] }
uefi = "=0.41.0"
log = "=0.4.35"
spin = "=0.12.3"
uart_16550 = "=0.9.0"
linked_list_allocator = "=0.10.6"
