[package]
name = "widget_state"
version = "0.1.0"
edition = "2021"
publish = false

[dependencies]
console_error_panic_hook = "0.1"
leptos = { version = "0.6", features = ["csr"] }
leptos_router = { version = "0.6", features = ["csr"] }
web-sys = { version = "0.3", features = ["Event", "SubmitEvent"] }
