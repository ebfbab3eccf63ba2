[package]
name = "book_guess"
version = "0.1.0"
edition = "2021"
publish = false

[dependencies]
rand = "0.8"
serde = { version = "1", features = ["derive"] }
serde_json = "1"
toml = "0.8"
tera = { version = "1", default-features = false }
actix-web = { version = "4", default-features = false, features = ["macros", "cookies"] }
actix-session = { version = "0.10", features = ["cookie-session"] }
actix-files = "0.6"
