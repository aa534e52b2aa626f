[package]
name = "envelope_system"
version = "0.1.0"
edition = "2021"
publish = false

[dependencies]
rusty-money = "0.3"
slotmap = "1"
