[package]
name = "riscv_vcpu"
version = "0.1.0"
edition = "2021"
publish = false

[dependencies]
axaddrspace = "=0.1.5"
axerrno = "=0.1.2"
axvcpu = "=0.1.1"
log = "=0.4.34"
riscv = "=0.16.1"
rustsbi = { version = "=0.4.1", features = ["forward"] }
sbi-rt = "=0.0.4"
sbi-spec = { version = "=0.0.9", features = ["legacy"] }
tock-registers = "=0.10.1"
