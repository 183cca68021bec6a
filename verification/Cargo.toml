[package]
name = "memo_app"
version = "0.1.0"
edition = "2021"
publish = false

[dependencies]
actix-rt = "=2.15.0"
actix-web = { version = "=4.18.1", default-features = false, features = ["macros"] }
argon2 = "=0.5.3"
async-trait = "=0.1.92"
awc = { version = "=3.11.0", default-features = false }
clap = { version = "=4.6.7", features = ["derive"] }
confy = "=2.0.0"
jsonwebtoken = "=9.3.1"
password-hash = { version = "=0.5.0", features = ["getrandom"] }
serde = { version = "=1.0.229", features = ["derive"] }
serde_json = { version = "=1.0.154", features = ["preserve_order"] }
sqlx = { version = "=0.8.6", default-features = false, features = ["runtime-tokio", "sqlite", "postgres", "derive"] }
thiserror = "=1.0.69"
