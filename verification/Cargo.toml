[package]
name = "poagov"
version = "1.0.0"
edition = "2021"
publish = false

[dependencies]
chrono = "0.4"
clap = "2"
ctrlc = "3"
dotenv = "0.15"
ethabi = "18.0.0"
ethereum-types = "0.14"
failure = "0.1"
hex = "0.4"
jsonrpc-core = "18.0.0"
lazy_static = "1"
lettre = "0.9"
lettre_email = "0.9"
native-tls = "0.2"
reqwest = { version = "0.11", default-features = false, features = ["blocking", "json", "native-tls"] }
serde_json = "1"
slog = "2"
slog-term = "2"
web3 = { version = "0.19.0", default-features = false }
