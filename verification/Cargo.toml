[package]
name = "platformer"
version = "0.1.0"
edition = "2021"
publish = false

[dependencies]
agb = "0.20"
agb_fixnum = "0.20"
agb_hashmap = "0.20"
agb_tracker = "0.20"
generational-arena = "0.2"
slotmap = "1"
