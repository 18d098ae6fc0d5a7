[package]
name = "sim_task"
version = "0.1.0"
edition = "2021"
publish = false

[dependencies]
rand = "0.8"
async-task = "4"
libc = "0.2"
lazy_static = "1"
