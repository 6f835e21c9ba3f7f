[package]
name = "connector_core"
version = "0.1.0"
edition = "2021"
publish = false

[dependencies]
url = "=2.5.8"
connection-string = "=0.2.0"
# Built for PostgreSQL alone: built for SQLite as well, quaint's URL parser
# would ask the disk, and its answer would no longer depend on the URL alone.
quaint = { version = "=0.1.13", features = ["pooled", "postgresql"] }
# Not used by this crate. It is named to hold quaint to the one release and
# feature of rust_decimal with which quaint's PostgreSQL code compiles.
rust_decimal = { version = "=1.6.0", features = ["tokio-pg"] }
tracing = "0.1"
