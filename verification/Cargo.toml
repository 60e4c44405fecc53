[package]
name = "x86emu"
version = "0.1.0"
edition = "2021"
publish = false

[dependencies]
goblin = "*"
addr2line = "*"
xmas-elf = "*"
zero = "*"
fnv = "*"
