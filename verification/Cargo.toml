[package]
name = "pinepods_activity"
version = "0.1.0"
edition = "2021"
publish = false

[dependencies]
anyhow = "1"
axum = { version = "0.8", features = ["ws"] }
chrono = { version = "=0.4.45", features = ["serde"] }
futures = "0.3"
gloo = "0.11"
gloo-timers = { version = "0.3", features = ["futures"] }
i18nrs = { version = "0.1.10", features = ["yew"] }
js-sys = "0.3"
redis = { version = "=1.8.1", features = ["tokio-comp"] }
serde = { version = "1", features = ["derive"] }
serde_json = "=1.0.154"
sqlx = { version = "0.8", default-features = false, features = ["runtime-tokio", "postgres", "mysql"] }
tokio = { version = "1", features = ["rt", "macros", "sync", "time", "process"] }
tracing = "0.1"
utoipa = { version = "5", features = ["axum_extras", "chrono"] }
uuid = { version = "=1.29.0", features = ["v4"] }
wasm-bindgen = "0.2"
wasm-bindgen-futures = "0.4"
web-sys = { version = "0.3", features = ["Window", "Storage", "Navigator", "console", "MouseEvent", "Event", "EventTarget", "Element", "HtmlElement", "HtmlMediaElement", "HtmlSelectElement"] }
yew = { version = "0.23", features = ["csr"] }
yew-router = "0.20"
yewdux = "0.13"
