[package]
name = "symbol_gen"
version = "0.1.0"
edition = "2021"
publish = false

[dependencies]
goblin = "*"
structopt = "0.3"
