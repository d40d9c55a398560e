[package]
name = "x86_vcpu"
version = "0.1.0"
edition = "2021"
publish = false

[dependencies]
raw-cpuid = "=11.6.0"
x86 = "=0.52.0"
x86_64 = { version = "=0.15.5", default-features = false, features = ["instructions"] }
axerrno = "=0.2.2"
memory_addr = "=0.4.1"
axaddrspace = "=0.6.0"
x86_vlapic = "=0.5.4"
