[package]
name = "media_typer"
version = "0.1.0"
edition = "2021"
publish = false

[dependencies]
url = "2"
deno_media_type = "*"
wasm-bindgen = "0.2"
