[package]
name = "webserver"
version = "0.1.0"
edition = "2021"
publish = false

[dependencies]
httparse = "*"
mime_guess = "*"
clap = { version = "*", features = ["derive"] }
crossbeam-channel = "*"
ctrlc = "*"
scoped_threadpool = "*"
time = { version = "*", features = ["macros", "local-offset", "formatting"] }
tracing = "*"
tracing-subscriber = { version = "*", features = ["json"] }
