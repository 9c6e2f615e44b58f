[package]
name = "kingbase_types"
version = "0.1.0"
edition = "2021"
publish = false

[dependencies]
bytes = "=1.12.1"
postgres-protocol = "=0.6.12"
bigdecimal = "=0.4.11"
fallible-iterator = "=0.2.0"
regex = "=1.13.1"
marksman_escape = "=0.1.2"
uuid = "1"
