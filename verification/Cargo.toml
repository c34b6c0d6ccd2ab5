[package]
name = "conn_adapter"
version = "0.1.0"
edition = "2021"
publish = false

[dependencies]
futures = "=0.3.34"
http = "=0.2.12"
http-body = "=0.3.1"
hyper = "=0.13.10"
tower-service = "=0.3.3"
tower-http-service = "=0.0.0"
