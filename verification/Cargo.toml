[package]
name = "rsip_dns"
version = "0.1.0"
edition = "2021"
publish = false

[dependencies]
rsip = "0.4"
async-trait = "0.1"
trust-dns-resolver = "0.20"
trust-dns-proto = "0.20"
