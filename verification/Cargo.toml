[package]
name = "invoice_manager"
version = "0.1.0"
edition = "2021"
publish = false

[dependencies]
anyhow = "1"
chrono = "0.4"
crossterm = "0.25"
dotenvy = "0.15"
envy = "0.4"
lettre = { version = "0.11", default-features = false, features = ["smtp-transport", "builder"] }
serde = { version = "1", features = ["derive"] }
sqlx = { version = "0.7", default-features = false, features = ["postgres", "runtime-tokio-rustls", "chrono"] }
tokio = { version = "1", features = ["macros", "rt-multi-thread"] }
tui = { version = "0.19", default-features = false, features = ["crossterm"] }
