[package]
name = "micro_ecs"
version = "0.1.0"
edition = "2021"
publish = false

[dependencies]
hashbrown = "=0.14.5"
unique-type-id = "=1.4.1"
fortuples = "=0.9.1"
casey = "=0.4.2"
itertools = "=0.12.1"
thiserror = "=1.0.69"
uninit = "=0.6.2"
