[package]
name = "kernel_core"
version = "0.1.0"
edition = "2021"
publish = false

[dependencies]
lazy_static = "1"
linked_list_allocator = "0.10"
spin = "0.9"
uart_16550 = "0.2"
volatile = "0.4"
