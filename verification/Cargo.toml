[package]
name = "elf_info"
version = "0.1.0"
edition = "2021"
publish = false

[dependencies]
anyhow = "1"
byteorder = "1"
clap = { version = "4", features = ["derive"] }
gimli = "0.27"
goblin = "0.6"
iced-x86 = { version = "1", default-features = false, features = ["std", "decoder", "gas", "intel"] }
memmap2 = "0.5"
regex = "1"
rustc-demangle = "0.1"
