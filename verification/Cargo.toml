[package]
name = "ts_sqlx"
version = "0.1.0"
edition = "2021"
publish = false

[dependencies]
anyhow = "=1.0.104"
clap = { version = "=4.6.7", features = ["derive", "env"] }
ctrlc = "=3.5.2"
dotenvy = "=0.15.7"
hashbrown = "=0.14.5"
notify = "=6.1.1"
once_cell = "=1.21.4"
regex = "=1.13.1"
serde = { version = "=1.0.219", features = ["derive"] }
serde_json = "=1.0.140"
sqlx-core = { version = "=0.7.4", features = ["json", "chrono", "time", "uuid", "bigdecimal", "rust_decimal", "ipnetwork", "mac_address", "bit-vec", "_rt-tokio"] }
sqlx-mysql = { version = "=0.7.4", features = ["json", "chrono", "time", "uuid", "bigdecimal", "rust_decimal"] }
sqlx-postgres = { version = "=0.7.4", features = ["json", "chrono", "time", "uuid", "bigdecimal", "rust_decimal", "ipnetwork", "mac_address", "bit-vec"] }
sqlx-sqlite = { version = "=0.7.4", features = ["json", "chrono", "time", "uuid"] }
swc_common = { version = "=0.33.26", features = ["tty-emitter"] }
swc_ecma_ast = "=0.110.17"
swc_ecma_parser = "=0.141.37"
tokio = { version = "=1.54.1", features = ["rt"] }
url = "=2.5.8"
walkdir = "=2.5.0"
