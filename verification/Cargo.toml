[package]
name = "type_reflect"
version = "0.1.0"
edition = "2021"
publish = false

[dependencies]
anyhow = "*"
type_reflect_core = "=0.7.0"
deno_ast = "=0.53.3"
dprint-plugin-typescript = "=0.96.1"
