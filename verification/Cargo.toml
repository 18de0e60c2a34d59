[package]
name = "dwarf_depth_dump"
version = "0.1.0"
edition = "2021"
publish = false

[dependencies]
gimli = "=0.32.3"
object = { version = "=0.40.0", features = ["write"] }
memmap2 = "=0.9.11"
clap = "=4.6.7"
