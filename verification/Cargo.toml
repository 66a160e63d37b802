[package]
name = "nested_routes"
version = "0.1.0"
edition = "2021"
publish = false

[dependencies]
either_of = "=0.1.9"
or_poisoned = "=0.1.0"
reactive_graph = "=0.2.16"
tachys = { version = "=0.2.19", features = ["reactive_graph", "ssr"] }
