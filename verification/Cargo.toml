[package]
name = "media_runner"
version = "0.1.0"
edition = "2021"
publish = false

[dependencies]
atm0s-sdn = "=0.2.0"
# Named only to hold its version: the network layer of atm0s-sdn does not compile with a later one.
atm0s-sdn-router = "=0.2.1"
sans-io-runtime = "=0.1.0"
rand = "=0.8.8"
convert-enum = "=0.1.0"
log = "=0.4.35"
