[package]
name = "iroha_wasm_pack"
version = "0.1.0"
edition = "2021"
publish = false

[dependencies]
duct = "0.13"
failure = "0.1"
log = "0.4"
structopt = "0.3"
toml = "0.5"
wasm-opt = "*"
