[package]
name = "myos"
version = "0.1.0"
edition = "2021"
publish = false

[dependencies]
axerrno = "=0.2.2"
axfs = "=0.3.0-preview.3"
axhal = "=0.3.0-preview.3"
axio = "=0.2.1"
axlog = "=0.3.0-preview.3"
axmm = "=0.3.0-preview.3"
axruntime = "=0.3.0-preview.3"
axtask = "=0.3.0-preview.3"
kernel-elf-parser = "=0.3.4"
memory_addr = "=0.4.1"
spin = "=0.12.3"
xmas-elf = "=0.10.0"
zerocopy = "=0.8.63"
