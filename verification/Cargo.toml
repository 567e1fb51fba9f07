[package]
name = "toodle"
version = "0.1.0"
edition = "2021"
publish = false

[dependencies]
uuid = { version = "=1.25.0", features = ["v4"] }
libc = "=0.2.191"
rusqlite = "=0.40.2"
mentat_core = "=1.18.0"
mentat_core_traits = "=1.18.0"
mentat_db = "=1.18.0"
mentat_transaction = "=1.18.0"
