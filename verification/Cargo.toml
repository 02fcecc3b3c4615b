[package]
name = "stark_vm_core"
version = "0.1.0"
edition = "2021"
publish = false

[dependencies]
openvm-stark-backend = "=2.0.1"
p3-baby-bear = "=0.8.0"
p3-field = "=0.8.0"
p3-matrix = "=0.8.0"
p3-monty-31 = "=0.8.0"
rand = "=0.10.3"
