[package]
name = "orc2"
version = "0.1.0"
edition = "2021"
publish = false

[dependencies]
libc = "=0.2.191"
llvm-sys = { version = "=211.0.1", default-features = false, features = ["no-llvm-linking", "disable-alltargets-init"] }
