[package]
name = "leptos_integration_utils"
version = "0.1.0"
edition = "2021"
publish = false

[dependencies]
leptos = { version = "=0.3.1", default-features = false, features = ["ssr", "stable", "serde"] }
leptos_config = "=0.3.1"
leptos_meta = { version = "=0.3.1", default-features = false, features = ["ssr", "stable"] }
leptos_hot_reload = "=0.3.1"
futures = "=0.3.34"
