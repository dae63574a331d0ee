[package]
name = "ngx_adapter"
version = "0.1.0"
edition = "2021"
publish = false

[dependencies]
http = "*"
nginx-sys = "*"
