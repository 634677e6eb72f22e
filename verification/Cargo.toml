[package]
name = "echo_unity_archivist"
version = "0.1.0"
edition = "2021"
publish = false

[dependencies]
lettre = { version = "*", default-features = false, features = ["builder", "smtp-transport", "rustls-tls"] }
imap = { version = "*", default-features = false }
